//! Load requests in the form that the native player takes.

use crate::request::{
    first_track, Load, LoadContextOptions, NativeLoadRequest, LoadSource, LoadedFrom, PlayingTrack,
};
use crate::text::texts;
use librespot_connect::{LoadRequestOptions, Options};
use vstd::prelude::*;

verus! {

/// A load request of `librespot_connect`.
#[verifier::external_type_specification]
#[verifier::external_body]
pub struct ExLoadRequest(librespot_connect::LoadRequest);

/// What a load request of `librespot_connect` holds: a context or tracks, and
/// the options that it was made with. What a request made in other ways holds
/// is left open.
pub uninterp spec fn load_held(request: librespot_connect::LoadRequest) -> Load;

/// Calls `LoadRequest::from_context_uri` of `librespot_connect`: the request
/// holds the context and the options that it is given.
#[verifier::external_body]
fn load_from_context_uri(
    context_uri: String,
    start_playing: bool,
    seek_to: u32,
    context_options: Option<LoadContextOptions>,
    playing_track: Option<PlayingTrack>,
) -> (r: librespot_connect::LoadRequest)
    ensures
        load_held(r) == (Load {
            source: LoadedFrom::Context(context_uri@),
            start_playing,
            seek_to,
            context_options,
            playing_track: first_track(playing_track),
        }),
{
    let context_options = match context_options {
        Some(LoadContextOptions { shuffle, repeat, repeat_track }) => Some(
            librespot_connect::LoadContextOptions::Options(Options { shuffle, repeat, repeat_track }),
        ),
        None => None,
    };
    let playing_track = match playing_track {
        Some(PlayingTrack::Index(i)) => Some(librespot_connect::PlayingTrack::Index(i)),
        Some(PlayingTrack::Uri(uri)) => Some(librespot_connect::PlayingTrack::Uri(uri)),
        None => None,
    };
    let options = LoadRequestOptions { start_playing, seek_to, context_options, playing_track };
    librespot_connect::LoadRequest::from_context_uri(context_uri, options)
}

/// Calls `LoadRequest::from_tracks` of `librespot_connect`: the request holds
/// the tracks, in their order, and the options that it is given.
#[verifier::external_body]
fn load_from_tracks(
    tracks: Vec<String>,
    start_playing: bool,
    seek_to: u32,
    context_options: Option<LoadContextOptions>,
    playing_track: Option<PlayingTrack>,
) -> (r: librespot_connect::LoadRequest)
    ensures
        load_held(r) == (Load {
            source: LoadedFrom::Tracks(texts(tracks@)),
            start_playing,
            seek_to,
            context_options,
            playing_track: first_track(playing_track),
        }),
{
    let context_options = match context_options {
        Some(LoadContextOptions { shuffle, repeat, repeat_track }) => Some(
            librespot_connect::LoadContextOptions::Options(Options { shuffle, repeat, repeat_track }),
        ),
        None => None,
    };
    let playing_track = match playing_track {
        Some(PlayingTrack::Index(i)) => Some(librespot_connect::PlayingTrack::Index(i)),
        Some(PlayingTrack::Uri(uri)) => Some(librespot_connect::PlayingTrack::Uri(uri)),
        None => None,
    };
    let options = LoadRequestOptions { start_playing, seek_to, context_options, playing_track };
    librespot_connect::LoadRequest::from_tracks(tracks, options)
}

/// A load request in the form that the native player takes.
pub fn librespot_load_request(load: NativeLoadRequest) -> (r: librespot_connect::LoadRequest)
    ensures
        load_held(r) == load@,
{
    match load.source {
        LoadSource::Context(uri) => load_from_context_uri(
            uri,
            load.start_playing,
            load.seek_to,
            load.context_options,
            load.playing_track,
        ),
        LoadSource::Tracks(uris) => load_from_tracks(
            uris,
            load.start_playing,
            load.seek_to,
            load.context_options,
            load.playing_track,
        ),
    }
}

/// The native player is handed what the request holds: its context or its tracks
/// in their order, where to begin, and how to play.
pub proof fn law_the_native_player_is_handed_the_request(
    load: NativeLoadRequest,
    r: librespot_connect::LoadRequest,
)
    requires
        call_ensures(librespot_load_request, (load,), r),
    ensures
        load.source matches LoadSource::Context(uri) ==> load_held(r).source
            == LoadedFrom::Context(uri@),
        load.source matches LoadSource::Tracks(uris) ==> load_held(r).source
            == LoadedFrom::Tracks(texts(uris@)),
        load_held(r).start_playing == load.start_playing,
        load_held(r).seek_to == load.seek_to,
        load_held(r).context_options == load.context_options,
        load.playing_track is None ==> load_held(r).playing_track is None,
        load.playing_track matches Some(PlayingTrack::Index(index)) ==> load_held(r).playing_track
            == Some(crate::request::FirstTrack::Index(index as nat)),
        load.playing_track matches Some(PlayingTrack::Uri(uri)) ==> load_held(r).playing_track
            == Some(crate::request::FirstTrack::Uri(uri@)),
{
}

} // verus!
