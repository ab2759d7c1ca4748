//! Which cover art is shown.

use crate::text::{optional_text, same_text};
use vstd::prelude::*;

verus! {

/// How far the cover art has come.
#[derive(Clone, Copy, Debug, PartialEq, Eq, Structural)]
pub enum CoverArtStatus {
    Idle,
    Loading,
    Loaded,
    Failed,
}

/// The cover art that is wanted, and the one that is there.
#[derive(Debug, PartialEq, Eq)]
pub struct CoverArtState {
    pub desired_key: Option<String>,
    /// The key of the image that is held.
    pub held_key: Option<String>,
    pub status: CoverArtStatus,
}

/// What becomes of an image that was fetched.
#[derive(Clone, Copy, Debug, PartialEq, Eq, Structural)]
pub enum FetchedArt {
    /// Another one is wanted by now.
    Discard,
    /// The image is held from now on.
    Store,
    /// No image is held from now on.
    Clear,
}

fn is_key(held: &Option<String>, key: &str) -> (r: bool)
    ensures
        r == (optional_text(*held) == Some(key@)),
{
    match held {
        Some(own) => same_text(own.as_str(), key),
        None => false,
    }
}

impl CoverArtState {
    /// Whether a key is the one that is wanted.
    pub open spec fn wants(self, key: Seq<char>) -> bool {
        optional_text(self.desired_key) == Some(key)
    }

    /// Whether the image of a key is held.
    pub open spec fn holds(self, key: Seq<char>) -> bool {
        optional_text(self.held_key) == Some(key)
    }

    /// Whether to fetch the image of a key: it is wanted and not held. One that
    /// is held already counts as loaded.
    pub fn fetch_cover_art(&mut self, key: &str) -> (r: bool)
        ensures
            r == (old(self).wants(key@) && !old(self).holds(key@)),
            *final(self) == (if old(self).wants(key@) && old(self).holds(key@) {
                CoverArtState { status: CoverArtStatus::Loaded, ..*old(self) }
            } else {
                *old(self)
            }),
    {
        if !is_key(&self.desired_key, key) {
            return false;
        }
        if is_key(&self.held_key, key) {
            self.status = CoverArtStatus::Loaded;
            return false;
        }
        true
    }

    /// Takes the news whether the image of a key was fetched. What has become
    /// unwanted meanwhile is discarded; a failure drops the image that is held.
    pub fn cover_art_fetched(&mut self, key: String, fetched: bool) -> (r: FetchedArt)
        ensures
            r == (if !old(self).wants(key@) {
                FetchedArt::Discard
            } else if fetched {
                FetchedArt::Store
            } else {
                FetchedArt::Clear
            }),
            *final(self) == (if !old(self).wants(key@) {
                *old(self)
            } else if fetched {
                CoverArtState {
                    held_key: Some(key),
                    status: CoverArtStatus::Loaded,
                    ..*old(self)
                }
            } else {
                CoverArtState { held_key: None, status: CoverArtStatus::Failed, ..*old(self) }
            }),
    {
        if !is_key(&self.desired_key, key.as_str()) {
            return FetchedArt::Discard;
        }
        if fetched {
            self.held_key = Some(key);
            self.status = CoverArtStatus::Loaded;
            FetchedArt::Store
        } else {
            self.held_key = None;
            self.status = CoverArtStatus::Failed;
            FetchedArt::Clear
        }
    }
}

/// Cover art is fetched exactly where it is wanted and not held yet. Art that is
/// wanted and held counts as loaded; nothing else changes.
pub proof fn law_which_art_is_fetched(art: &mut CoverArtState, key: &str, r: bool)
    requires
        call_ensures(CoverArtState::fetch_cover_art, (art, key), r),
    ensures
        ({
            let wanted = old(art).desired_key is Some && old(art).desired_key->0@ == key@;
            let held = old(art).held_key is Some && old(art).held_key->0@ == key@;
            &&& r <==> wanted && !held
            &&& wanted && held ==> final(art).status == CoverArtStatus::Loaded
            &&& !(wanted && held) ==> final(art).status == old(art).status
            &&& final(art).desired_key == old(art).desired_key
            &&& final(art).held_key == old(art).held_key
        }),
{
}

/// Art that came for a key which is no longer wanted is discarded and changes
/// nothing. Wanted art is held from then on, and a failure to fetch it leaves
/// none held; what is wanted stays. So what is held after a fetch that counted
/// is what is wanted, or nothing.
pub proof fn law_what_becomes_of_fetched_art(
    art: &mut CoverArtState,
    key: String,
    fetched: bool,
    r: FetchedArt,
)
    requires
        call_ensures(CoverArtState::cover_art_fetched, (art, key, fetched), r),
    ensures
        ({
            let wanted = old(art).desired_key is Some && old(art).desired_key->0@ == key@;
            &&& !wanted ==> r == FetchedArt::Discard && *final(art) == *old(art)
            &&& wanted && fetched ==> {
                &&& r == FetchedArt::Store
                &&& final(art).status == CoverArtStatus::Loaded
                &&& final(art).held_key is Some
                &&& final(art).held_key->0@ == key@
            }
            &&& wanted && !fetched ==> {
                &&& r == FetchedArt::Clear
                &&& final(art).status == CoverArtStatus::Failed
                &&& final(art).held_key is None
            }
            &&& final(art).desired_key == old(art).desired_key
        }),
{
}

} // verus!
