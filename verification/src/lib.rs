//! Decision logic of a Spotify playback client.
//!
//! The client plays either through a native streaming player of its own or
//! through whatever device the Spotify Web API addresses. This library holds
//! the rules: which of the two a command goes to, what is sent, and how the
//! state of the player changes with each answer.

pub mod text;
pub mod json;
pub mod ids;
pub mod items;
pub mod request;
pub mod native_load;
pub mod time;
pub mod recovery;
pub mod device;
pub mod effects;
pub mod state;
pub mod errors;
pub mod preference;
pub mod poll;
pub mod transport;
pub mod start;
pub mod transfer;
pub mod continuation;
pub mod restore;
pub mod queue;
pub mod cover_art;
pub mod laws;
