//! What is sent to start playback, to the Web API or to the native player.

use crate::ids::{
    optional_uri_of, optional_uris_of, playable_uris, uris_of, PlayContextId, PlayableId,
};
use crate::items::RepeatState;
use crate::json::{
    json_list, json_number, json_object, json_of, json_set, json_text, text_list, Json,
};
use crate::text::texts;
use serde_json::Value;
use vstd::prelude::*;

verus! {

/// The most URIs that Spotify accepts in one request.
pub const MAX_API_PLAYBACK_URIS: usize = 100;

/// How many URIs before the selected one are kept where the list is cut.
pub const PREFERRED_HISTORY: usize = 20;

/// The position that an offset selects in a list of `len` URIs: the first one
/// without an offset, the last one where the offset lies behind it.
pub open spec fn selected_index(len: nat, offset: Option<usize>) -> int {
    match offset {
        Some(index) => if index < len {
            index as int
        } else {
            len - 1
        },
        None => 0,
    }
}

/// Where the window begins to which a list of `len` URIs is cut: so far before
/// the selected position, but not so late that fewer URIs than allowed follow.
pub open spec fn window_start(len: nat, offset: Option<usize>) -> int {
    let selected = selected_index(len, offset);
    let preferred = if selected > PREFERRED_HISTORY {
        selected - PREFERRED_HISTORY
    } else {
        0
    };
    if preferred > len - MAX_API_PLAYBACK_URIS {
        len - MAX_API_PLAYBACK_URIS
    } else {
        preferred
    }
}

/// The URIs that are sent of a list.
pub open spec fn trimmed_uris<T>(uris: Seq<T>, offset: Option<usize>) -> Seq<T> {
    if uris.len() <= MAX_API_PLAYBACK_URIS {
        uris
    } else {
        let start = window_start(uris.len(), offset);
        uris.subrange(start, start + MAX_API_PLAYBACK_URIS)
    }
}

/// The offset that is sent with the URIs of a list.
pub open spec fn trimmed_offset(len: nat, offset: Option<usize>) -> Option<usize> {
    if len <= MAX_API_PLAYBACK_URIS {
        offset
    } else {
        Some((selected_index(len, offset) - window_start(len, offset)) as usize)
    }
}

/// Cuts a list to what Spotify accepts in one request: a window that still
/// holds the selected item, and the position of that item in it.
pub fn trim_api_playback_uris(track_uris: Vec<PlayableId>, offset: Option<usize>) -> (r: (
    Vec<PlayableId>,
    Option<usize>,
))
    ensures
        r.0@ == trimmed_uris(track_uris@, offset),
        r.1 == trimmed_offset(track_uris@.len(), offset),
{
    let len = track_uris.len();
    if len <= MAX_API_PLAYBACK_URIS {
        return (track_uris, offset);
    }
    let selected: usize = match offset {
        Some(index) => if index < len {
            index
        } else {
            len - 1
        },
        None => 0,
    };
    let preferred: usize = if selected > PREFERRED_HISTORY {
        selected - PREFERRED_HISTORY
    } else {
        0
    };
    let start: usize = if preferred > len - MAX_API_PLAYBACK_URIS {
        len - MAX_API_PLAYBACK_URIS
    } else {
        preferred
    };
    let mut window: Vec<PlayableId> = Vec::new();
    for i in 0..MAX_API_PLAYBACK_URIS
        invariant
            start + MAX_API_PLAYBACK_URIS <= track_uris.len(),
            window.len() == i,
            forall|j: int| 0 <= j < i ==> window@[j] == track_uris@[start + j],
    {
        window.push(track_uris[start + i].clone());
    }
    assert(window@ =~= trimmed_uris(track_uris@, offset));
    (window, Some(selected - start))
}

/// Cutting a list keeps the selected item: it stands at the new offset, and
/// the list that is sent never exceeds what Spotify accepts.
pub proof fn law_trim_keeps_the_selected_item<T>(uris: Seq<T>, offset: Option<usize>)
    ensures
        trimmed_uris(uris, offset).len() <= MAX_API_PLAYBACK_URIS,
        uris.len() > MAX_API_PLAYBACK_URIS ==> {
            let new_offset = trimmed_offset(uris.len(), offset);
            &&& new_offset is Some
            &&& new_offset->0 < trimmed_uris(uris, offset).len()
            &&& trimmed_uris(uris, offset)[new_offset->0 as int] == uris[selected_index(
                uris.len(),
                offset,
            )]
        },
{
}

/// What was cut once is not cut again.
pub proof fn law_trim_is_idempotent<T>(uris: Seq<T>, offset: Option<usize>)
    ensures
        trimmed_uris(trimmed_uris(uris, offset), trimmed_offset(uris.len(), offset))
            == trimmed_uris(uris, offset),
        trimmed_offset(trimmed_uris(uris, offset).len(), trimmed_offset(uris.len(), offset))
            == trimmed_offset(uris.len(), offset),
{
}

/// The contents of an optional JSON value.
pub open spec fn optional_json(value: Option<Value>) -> Option<Json> {
    match value {
        Some(v) => Some(json_of(v)),
        None => None,
    }
}

/// A JSON object with one member.
pub open spec fn single(key: Seq<char>, value: Json) -> Json {
    Json::Object(Map::empty().insert(key, value))
}

/// Where playback starts, as the Web API is told: at the first of the URIs that
/// come with a context, else at a position.
pub open spec fn offset_json(
    context_uris: Option<Seq<Seq<char>>>,
    offset: Option<usize>,
) -> Option<Json> {
    if context_uris is Some && context_uris->0.len() > 0 {
        Some(single("uri"@, Json::Text(context_uris->0[0])))
    } else {
        match offset {
            Some(index) => Some(single("position"@, Json::Number(index as nat))),
            None => None,
        }
    }
}

/// A JSON object with one member, and the offset where there is one.
pub open spec fn with_offset(key: Seq<char>, value: Json, offset: Option<Json>) -> Json {
    let members = Map::<Seq<char>, Json>::empty().insert(key, value);
    match offset {
        Some(start) => Json::Object(members.insert("offset"@, start)),
        None => Json::Object(members),
    }
}

/// The body of a request to start playback: the context and where in it to
/// start, else the URIs and the position among them, else none.
pub open spec fn body_json(
    context: Option<Seq<char>>,
    uris: Option<Seq<Seq<char>>>,
    offset: Option<usize>,
) -> Option<Json> {
    match (context, uris) {
        (Some(uri), _) => Some(
            with_offset("context_uri"@, Json::Text(uri), offset_json(uris, offset)),
        ),
        (None, Some(list)) => Some(with_offset("uris"@, text_list(list), offset_json(None, offset))),
        (None, None) => None,
    }
}

/// The URIs of an optional slice, in its order.
pub open spec fn slice_uris(uris: Option<&[PlayableId]>) -> Option<Seq<Seq<char>>> {
    match uris {
        Some(list) => Some(uris_of(list@)),
        None => None,
    }
}

/// Where playback starts, as the Web API is told: at the first of the URIs that
/// come with a context, else at a position.
pub fn api_playback_offset_json(context_uris: Option<&[PlayableId]>, offset: Option<usize>) -> (r:
    Option<Value>)
    ensures
        optional_json(r) == offset_json(slice_uris(context_uris), offset),
{
    if let Some(uris) = context_uris {
        if uris.len() > 0 {
            let mut start = json_object();
            json_set(&mut start, "uri", json_text(uris[0].uri().as_str()));
            assert(uris_of(uris@)[0] == uris@[0].spec_uri());
            return Some(start);
        }
    }
    match offset {
        Some(index) => {
            let mut start = json_object();
            json_set(&mut start, "position", json_number(index));
            Some(start)
        },
        None => None,
    }
}

/// The body of a request to start playback: the context and where in it to
/// start, else the URIs and the position among them. Without either there is
/// no body, and what played last resumes.
pub fn api_playback_body(
    context_id: Option<&PlayContextId>,
    uris: Option<&[PlayableId]>,
    offset: Option<usize>,
) -> (r: Option<Value>)
    ensures
        optional_json(r) == body_json(
            match context_id {
                Some(context) => Some(context.spec_uri()),
                None => None,
            },
            slice_uris(uris),
            offset,
        ),
{
    match (context_id, uris) {
        (Some(context), track_uris) => {
            let mut body = json_object();
            json_set(&mut body, "context_uri", json_text(context.uri().as_str()));
            if let Some(start) = api_playback_offset_json(track_uris, offset) {
                json_set(&mut body, "offset", start);
            }
            Some(body)
        },
        (None, Some(track_uris)) => {
            let mut body = json_object();
            json_set(&mut body, "uris", json_list(playable_uris(track_uris)));
            if let Some(start) = api_playback_offset_json(None, offset) {
                json_set(&mut body, "offset", start);
            }
            Some(body)
        },
        (None, None) => None,
    }
}

/// Which track of a load plays first.
#[derive(Debug, PartialEq, Eq)]
pub enum PlayingTrack {
    Index(u32),
    Uri(String),
}

/// How a context is played that is loaded.
#[derive(Clone, Copy, Debug, PartialEq, Eq, Structural)]
pub struct LoadContextOptions {
    pub shuffle: bool,
    pub repeat: bool,
    pub repeat_track: bool,
}

/// What a load plays: a context, or a list of tracks.
#[derive(Debug, PartialEq, Eq)]
pub enum LoadSource {
    Context(String),
    Tracks(Vec<String>),
}

/// A request to the native player to load something.
#[derive(Debug, PartialEq, Eq)]
pub struct NativeLoadRequest {
    pub source: LoadSource,
    pub start_playing: bool,
    pub seek_to: u32,
    pub context_options: Option<LoadContextOptions>,
    pub playing_track: Option<PlayingTrack>,
}

/// Which track of a load plays first, its URI by its characters.
pub enum FirstTrack {
    Index(nat),
    Uri(Seq<char>),
}

/// What a load plays, its URIs by their characters.
pub enum LoadedFrom {
    Context(Seq<char>),
    Tracks(Seq<Seq<char>>),
}

/// A load request, its URIs by their characters.
pub struct Load {
    pub source: LoadedFrom,
    pub start_playing: bool,
    pub seek_to: u32,
    pub context_options: Option<LoadContextOptions>,
    pub playing_track: Option<FirstTrack>,
}

/// Which track of a load plays first, its URI by its characters.
pub open spec fn first_track(track: Option<PlayingTrack>) -> Option<FirstTrack> {
    match track {
        Some(PlayingTrack::Index(index)) => Some(FirstTrack::Index(index as nat)),
        Some(PlayingTrack::Uri(uri)) => Some(FirstTrack::Uri(uri@)),
        None => None,
    }
}

impl View for NativeLoadRequest {
    type V = Load;

    open spec fn view(&self) -> Load {
        Load {
            source: match self.source {
                LoadSource::Context(uri) => LoadedFrom::Context(uri@),
                LoadSource::Tracks(uris) => LoadedFrom::Tracks(texts(uris@)),
            },
            start_playing: self.start_playing,
            seek_to: self.seek_to,
            context_options: self.context_options,
            playing_track: first_track(self.playing_track),
        }
    }
}

/// The contents of an optional load request.
pub open spec fn optional_load(request: Option<NativeLoadRequest>) -> Option<Load> {
    match request {
        Some(load) => Some(load@),
        None => None,
    }
}

/// The position that an offset names, where the native player can count so far.
pub open spec fn index_track(offset: Option<usize>) -> Option<FirstTrack> {
    match offset {
        Some(index) => if index <= u32::MAX {
            Some(FirstTrack::Index(index as nat))
        } else {
            None
        },
        None => None,
    }
}

fn playing_index(offset: Option<usize>) -> (r: Option<PlayingTrack>)
    ensures
        r is Some <==> index_track(offset) is Some,
        r matches Some(track) ==> track matches PlayingTrack::Index(index) && index_track(offset)
            == Some(FirstTrack::Index(index as nat)),
{
    match offset {
        Some(index) => if index as u64 <= u32::MAX as u64 {
            Some(PlayingTrack::Index(index as u32))
        } else {
            None
        },
        None => None,
    }
}

/// The load that starts playback: of a context, from the first of the URIs that
/// come with it, or of the URIs themselves; else from a position.
pub open spec fn start_load(
    context: Option<Seq<char>>,
    uris: Option<Seq<Seq<char>>>,
    offset: Option<usize>,
) -> Option<Load> {
    let by_uri = context is Some && uris is Some && uris->0.len() > 0;
    let load = |source: LoadedFrom|
        Load {
            source,
            start_playing: true,
            seek_to: 0,
            context_options: None,
            playing_track: if by_uri {
                Some(FirstTrack::Uri(uris->0[0]))
            } else {
                index_track(offset)
            },
        };
    match (context, uris) {
        (Some(uri), _) => Some(load(LoadedFrom::Context(uri))),
        (None, Some(list)) => Some(load(LoadedFrom::Tracks(list))),
        (None, None) => None,
    }
}

/// The load that starts playback on the native player. Without a context and
/// without URIs there is nothing to load.
pub fn native_load_request(
    context_id: &Option<PlayContextId>,
    uris: &Option<Vec<PlayableId>>,
    offset: Option<usize>,
) -> (r: Option<NativeLoadRequest>)
    ensures
        optional_load(r) == start_load(
            optional_uri_of(*context_id),
            optional_uris_of(*uris),
            offset,
        ),
{
    match context_id {
        Some(context) => {
            let mut playing_track = playing_index(offset);
            if let Some(track_uris) = uris {
                if track_uris.len() > 0 {
                    playing_track = Some(PlayingTrack::Uri(track_uris[0].uri()));
                    assert(uris_of(track_uris@)[0] == track_uris@[0].spec_uri());
                }
            }
            Some(
                NativeLoadRequest {
                    source: LoadSource::Context(context.uri()),
                    start_playing: true,
                    seek_to: 0,
                    context_options: None,
                    playing_track,
                },
            )
        },
        None => match uris {
            Some(track_uris) => Some(
                NativeLoadRequest {
                    source: LoadSource::Tracks(playable_uris(track_uris.as_slice())),
                    start_playing: true,
                    seek_to: 0,
                    context_options: None,
                    playing_track: playing_index(offset),
                },
            ),
            None => None,
        },
    }
}

/// What was playing natively when the connection was lost.
#[derive(Debug, PartialEq, Eq)]
pub struct NativePlaybackRecoverySnapshot {
    pub context_uri: Option<String>,
    pub uris: Option<Vec<String>>,
    pub offset: Option<usize>,
    /// The track that is expected to play when playback is restored.
    pub expected_track_uri: Option<String>,
    pub track_duration_ms: Option<u32>,
    pub position_ms: u32,
    pub desired_playing: bool,
    pub shuffle: bool,
    pub repeat: RepeatState,
}

impl NativePlaybackRecoverySnapshot {
    /// Where in the track to resume: where it was, but before its end where its
    /// length is known.
    pub open spec fn spec_restore_position_ms(self) -> u32 {
        match self.track_duration_ms {
            Some(duration) => if duration == 0 {
                0
            } else if self.position_ms < duration {
                self.position_ms
            } else {
                (duration - 1) as u32
            },
            None => self.position_ms,
        }
    }

    /// Where in the track to resume: where it was, but before its end where its
    /// length is known.
    pub fn restore_position_ms(&self) -> (r: u32)
        ensures
            r == self.spec_restore_position_ms(),
    {
        match self.track_duration_ms {
            Some(duration) => if duration == 0 {
                0
            } else if self.position_ms < duration {
                self.position_ms
            } else {
                duration - 1
            },
            None => self.position_ms,
        }
    }
}

/// The load that restores what was playing: of its context, else of its URIs;
/// from the expected track, else from the position in the list.
pub open spec fn restore_load(snapshot: NativePlaybackRecoverySnapshot) -> Option<Load> {
    let load = |source: LoadedFrom|
        Load {
            source,
            start_playing: snapshot.desired_playing,
            seek_to: snapshot.spec_restore_position_ms(),
            context_options: Some(
                LoadContextOptions {
                    shuffle: snapshot.shuffle,
                    repeat: snapshot.repeat != RepeatState::Off,
                    repeat_track: snapshot.repeat == RepeatState::Track,
                },
            ),
            playing_track: match snapshot.expected_track_uri {
                Some(uri) => Some(FirstTrack::Uri(uri@)),
                None => index_track(snapshot.offset),
            },
        };
    match (snapshot.context_uri, snapshot.uris) {
        (Some(uri), _) => Some(load(LoadedFrom::Context(uri@))),
        (None, Some(list)) => if list@.len() > 0 {
            Some(load(LoadedFrom::Tracks(texts(list@))))
        } else {
            None
        },
        (None, None) => None,
    }
}

/// The load that restores what was playing. Without a context and without URIs
/// there is nothing to restore.
pub fn native_restore_load_request(snapshot: &NativePlaybackRecoverySnapshot) -> (r: Option<
    NativeLoadRequest,
>)
    ensures
        optional_load(r) == restore_load(*snapshot),
{
    let source = match &snapshot.context_uri {
        Some(uri) => LoadSource::Context(uri.clone()),
        None => match &snapshot.uris {
            Some(list) => {
                if list.len() == 0 {
                    return None;
                }
                LoadSource::Tracks(copy_texts(list))
            },
            None => {
                return None;
            },
        },
    };
    let playing_track = match &snapshot.expected_track_uri {
        Some(uri) => Some(PlayingTrack::Uri(uri.clone())),
        None => playing_index(snapshot.offset),
    };
    Some(
        NativeLoadRequest {
            source,
            start_playing: snapshot.desired_playing,
            seek_to: snapshot.restore_position_ms(),
            context_options: Some(
                LoadContextOptions {
                    shuffle: snapshot.shuffle,
                    repeat: snapshot.repeat != RepeatState::Off,
                    repeat_track: snapshot.repeat == RepeatState::Track,
                },
            ),
            playing_track,
        },
    )
}

/// A copy of a list of texts.
pub(crate) fn copy_texts(list: &Vec<String>) -> (r: Vec<String>)
    ensures
        r@ == list@,
{
    let mut copy: Vec<String> = Vec::new();
    for i in 0..list.len()
        invariant
            copy.len() == i,
            forall|j: int| 0 <= j < i ==> copy@[j] == list@[j],
    {
        copy.push(list[i].clone());
    }
    assert(copy@ =~= list@);
    copy
}

/// Playback that is restored never starts behind the end of its track.
pub proof fn law_restore_starts_inside_the_track(snapshot: NativePlaybackRecoverySnapshot)
    requires
        restore_load(snapshot) is Some,
        snapshot.track_duration_ms is Some,
        snapshot.track_duration_ms->0 > 0,
    ensures
        restore_load(snapshot)->0.seek_to < snapshot.track_duration_ms->0,
        restore_load(snapshot)->0.seek_to <= snapshot.position_ms,
{
}

/// A context and a track that come together start the context at that track,
/// whichever way playback is started.
pub proof fn law_context_starts_at_the_given_track(
    context: Seq<char>,
    track: Seq<char>,
    offset: Option<usize>,
)
    ensures
        start_load(Some(context), Some(seq![track]), offset)->0.source == LoadedFrom::Context(
            context,
        ),
        start_load(Some(context), Some(seq![track]), offset)->0.playing_track == Some(
            FirstTrack::Uri(track),
        ),
        body_json(Some(context), Some(seq![track]), offset) == Some(
            with_offset(
                "context_uri"@,
                Json::Text(context),
                Some(single("uri"@, Json::Text(track))),
            ),
        ),
{
}

/// The item that is selected is the one that plays. Of a list that is cut, the
/// item sent at the new offset is the one at the offset that was given, the last
/// one where the offset lies behind the end, and the first one without an
/// offset.
pub proof fn law_the_item_sent_at_the_offset_is_the_selected_one(
    uris: Vec<PlayableId>,
    offset: Option<usize>,
    r: (Vec<PlayableId>, Option<usize>),
)
    requires
        call_ensures(trim_api_playback_uris, (uris, offset), r),
    ensures
        uris@.len() > 100 ==> r.1 is Some && r.1->0 < r.0@.len(),
        uris@.len() > 100 && offset is Some && offset->0 < uris@.len() ==> r.0@[r.1->0 as int]
            == uris@[offset->0 as int],
        uris@.len() > 100 && offset is Some && offset->0 >= uris@.len() ==> r.0@[r.1->0 as int]
            == uris@.last() && r.1 == Some(99usize),
        uris@.len() > 100 && offset is None ==> r.0@[r.1->0 as int] == uris@[0] && r.1 == Some(
            0usize,
        ),
{
}

/// A list of at most a hundred items is sent as it is, with its offset. A longer
/// one is cut to a hundred that follow each other in it. Twenty of them come
/// before the selected one where the list has as many, unless the end of the
/// list calls for more.
pub proof fn law_a_list_is_cut_to_a_window(
    uris: Vec<PlayableId>,
    offset: Option<usize>,
    r: (Vec<PlayableId>, Option<usize>),
)
    requires
        call_ensures(trim_api_playback_uris, (uris, offset), r),
    ensures
        uris@.len() <= 100 ==> r.0@ == uris@ && r.1 == offset,
        uris@.len() > 100 ==> r.0@.len() == 100,
        uris@.len() > 100 ==> exists|start: int|
            0 <= start && start + 100 <= uris@.len() && r.0@ == #[trigger] uris@.subrange(
                start,
                start + 100,
            ),
        uris@.len() > 100 && offset is Some && offset->0 <= 20 ==> r.1 == offset,
        uris@.len() > 100 && offset is Some && 20 <= offset->0 && offset->0 + 80 <= uris@.len()
            ==> r.1 == Some(20usize),
        uris@.len() > 100 && offset is Some && offset->0 < uris@.len() && offset->0 + 80
            >= uris@.len() ==> r.1->0 + (uris@.len() - offset->0) == 100,
{
    if uris@.len() > 100 {
        let start = window_start(uris@.len(), offset);
        assert(r.0@ == uris@.subrange(start, start + 100));
    }
}

/// The offset of a request names the first of the URIs that come with a
/// context, and nothing else; without any it names the position, and nothing
/// else; without a position there is none.
pub proof fn law_an_offset_names_the_uri_or_the_position(
    uris: Option<&[PlayableId]>,
    offset: Option<usize>,
    r: Option<Value>,
)
    requires
        call_ensures(api_playback_offset_json, (uris, offset), r),
    ensures
        uris is Some && uris->0@.len() > 0 ==> {
            &&& r is Some
            &&& json_of(r->0) is Object
            &&& json_of(r->0)->Object_0.dom() =~= set!["uri"@]
            &&& json_of(r->0)->Object_0["uri"@] == Json::Text(uris->0@[0].spec_uri())
        },
        (uris is None || uris->0@.len() == 0) && offset is Some ==> {
            &&& r is Some
            &&& json_of(r->0) is Object
            &&& json_of(r->0)->Object_0.dom() =~= set!["position"@]
            &&& json_of(r->0)->Object_0["position"@] == Json::Number(offset->0 as nat)
        },
        (uris is None || uris->0@.len() == 0) && offset is None ==> r is None,
{
    if uris is Some && uris->0@.len() > 0 {
        assert(uris_of(uris->0@)[0] == uris->0@[0].spec_uri());
    }
}

/// The body of a start names the context where there is one, else the URIs in
/// their order, and never both; its offset is that of
/// `api_playback_offset_json`, where the URIs count only beside a context.
/// Without a context and without URIs there is no body.
pub proof fn law_a_body_names_the_context_or_the_uris(
    context: Option<&PlayContextId>,
    uris: Option<&[PlayableId]>,
    offset: Option<usize>,
    r: Option<Value>,
    with_uris: Option<Value>,
    without_uris: Option<Value>,
)
    requires
        call_ensures(api_playback_body, (context, uris, offset), r),
        call_ensures(api_playback_offset_json, (uris, offset), with_uris),
        call_ensures(api_playback_offset_json, (None, offset), without_uris),
    ensures
        context is None && uris is None <==> r is None,
        r is Some ==> json_of(r->0) is Object,
        context is Some ==> {
            let members = json_of(r->0)->Object_0;
            &&& members.dom() =~= if with_uris is Some {
                set!["context_uri"@, "offset"@]
            } else {
                set!["context_uri"@]
            }
            &&& members["context_uri"@] == Json::Text(context->0.spec_uri())
            &&& with_uris is Some ==> members["offset"@] == json_of(with_uris->0)
        },
        context is None && uris is Some ==> {
            let members = json_of(r->0)->Object_0;
            let list = members["uris"@]->List_0;
            &&& members.dom() =~= if without_uris is Some {
                set!["uris"@, "offset"@]
            } else {
                set!["uris"@]
            }
            &&& members["uris"@] is List
            &&& list.len() == uris->0@.len()
            &&& forall|i: int|
                0 <= i < list.len() ==> #[trigger] list[i] == Json::Text(uris->0@[i].spec_uri())
            &&& without_uris is Some ==> members["offset"@] == json_of(without_uris->0)
        },
{
    reveal_strlit("context_uri");
    reveal_strlit("offset");
    reveal_strlit("uris");
    assert("context_uri"@.len() != "offset"@.len());
    assert("uris"@.len() != "offset"@.len());
}

/// The load that starts playback plays at once from the beginning of its track,
/// with no options of its own. It plays the context where there is one, from
/// the first of the URIs that come with it; else the URIs in their order. In any
/// other case it begins at the position, where that fits 32 bits.
pub proof fn law_a_start_loads_what_was_asked_for(
    context: Option<PlayContextId>,
    uris: Option<Vec<PlayableId>>,
    offset: Option<usize>,
    r: Option<NativeLoadRequest>,
)
    requires
        call_ensures(native_load_request, (&context, &uris, offset), r),
    ensures
        context is None && uris is None <==> r is None,
        r is Some ==> {
            let load = r->0;
            &&& load.start_playing
            &&& load.seek_to == 0
            &&& load.context_options is None
            &&& context is Some ==> load.source is Context && load.source->Context_0@
                == context->0.spec_uri()
            &&& context is None ==> {
                &&& load.source is Tracks
                &&& load.source->Tracks_0@.len() == uris->0@.len()
                &&& forall|i: int|
                    0 <= i < uris->0@.len() ==> (#[trigger] load.source->Tracks_0@[i])@
                        == uris->0@[i].spec_uri()
            }
            &&& if context is Some && uris is Some && uris->0@.len() > 0 {
                load.playing_track matches Some(PlayingTrack::Uri(uri)) && uri@
                    == uris->0@[0].spec_uri()
            } else if offset is Some && offset->0 <= 0xffff_ffff {
                load.playing_track matches Some(PlayingTrack::Index(index)) && index == offset->0
            } else {
                load.playing_track is None
            }
        },
{
    if r is Some && context is None {
        let tracks = r->0.source->Tracks_0@;
        assert(r->0@.source == LoadedFrom::Tracks(uris_of(uris->0@)));
        assert(texts(tracks) == uris_of(uris->0@));
        assert(texts(tracks).len() == tracks.len());
        assert forall|i: int| 0 <= i < uris->0@.len() implies (#[trigger] tracks[i])@
            == uris->0@[i].spec_uri() by {
            assert(texts(tracks)[i] == tracks[i]@);
        }
    }
    if uris is Some && uris->0@.len() > 0 {
        assert(uris_of(uris->0@)[0] == uris->0@[0].spec_uri());
    }
}

/// Playback goes on where it was: the position is that of the snapshot wherever
/// that lies before the end of the track or the length of the track is not
/// known, whether it played or not. Behind the end it is the last moment of the
/// track, and a track without length begins at its beginning.
pub proof fn law_playback_goes_on_where_it_was(snapshot: NativePlaybackRecoverySnapshot, r: u32)
    requires
        call_ensures(NativePlaybackRecoverySnapshot::restore_position_ms, (&snapshot,), r),
    ensures
        snapshot.track_duration_ms is None ==> r == snapshot.position_ms,
        snapshot.track_duration_ms is Some && snapshot.position_ms < snapshot.track_duration_ms->0
            ==> r == snapshot.position_ms,
        snapshot.track_duration_ms is Some && snapshot.position_ms
            >= snapshot.track_duration_ms->0 && snapshot.track_duration_ms->0 > 0 ==> r + 1
            == snapshot.track_duration_ms->0,
        snapshot.track_duration_ms == Some(0u32) ==> r == 0,
{
}

/// The load that restores playback holds what the snapshot holds: it plays
/// where that played and pauses where that paused, seeks to where playback goes
/// on, shuffles and repeats as before, and loads the context, else the list. It
/// begins at the track that is expected, else at the position in the list.
pub proof fn law_a_restore_loads_what_was_playing(
    snapshot: NativePlaybackRecoverySnapshot,
    r: Option<NativeLoadRequest>,
    position: u32,
)
    requires
        call_ensures(native_restore_load_request, (&snapshot,), r),
        call_ensures(NativePlaybackRecoverySnapshot::restore_position_ms, (&snapshot,), position),
    ensures
        r is Some <==> snapshot.context_uri is Some || (snapshot.uris is Some
            && snapshot.uris->0@.len() > 0),
        r is Some ==> {
            let load = r->0;
            &&& load.start_playing == snapshot.desired_playing
            &&& load.seek_to == position
            &&& load.context_options is Some
            &&& load.context_options->0.shuffle == snapshot.shuffle
            &&& load.context_options->0.repeat <==> snapshot.repeat == RepeatState::Context
                || snapshot.repeat == RepeatState::Track
            &&& load.context_options->0.repeat_track <==> snapshot.repeat == RepeatState::Track
            &&& snapshot.context_uri is Some ==> load.source is Context
                && load.source->Context_0@ == snapshot.context_uri->0@
            &&& snapshot.context_uri is None ==> {
                &&& load.source is Tracks
                &&& load.source->Tracks_0@.len() == snapshot.uris->0@.len()
                &&& forall|i: int|
                    0 <= i < snapshot.uris->0@.len() ==> (#[trigger] load.source->Tracks_0@[i])@
                        == snapshot.uris->0@[i]@
            }
            &&& if snapshot.expected_track_uri is Some {
                load.playing_track matches Some(PlayingTrack::Uri(uri)) && uri@
                    == snapshot.expected_track_uri->0@
            } else if snapshot.offset is Some && snapshot.offset->0 <= 0xffff_ffff {
                load.playing_track matches Some(PlayingTrack::Index(index)) && index
                    == snapshot.offset->0
            } else {
                load.playing_track is None
            }
        },
{
    if r is Some && snapshot.context_uri is None {
        let tracks = r->0.source->Tracks_0@;
        let uris = snapshot.uris->0@;
        assert(r->0@.source == LoadedFrom::Tracks(texts(uris)));
        assert(texts(tracks) == texts(uris));
        assert(texts(tracks).len() == tracks.len() && texts(uris).len() == uris.len());
        assert forall|i: int| 0 <= i < uris.len() implies (#[trigger] tracks[i])@ == uris[i]@ by {
            assert(texts(tracks)[i] == tracks[i]@);
            assert(texts(uris)[i] == uris[i]@);
        }
    }
}

/// Of a list that is cut, the item sent at the new offset is the one at the
/// offset that was given.
pub proof fn law_the_selected_item_is_sent<T>(uris: Seq<T>, i: usize)
    requires
        uris.len() > MAX_API_PLAYBACK_URIS,
        i < uris.len(),
    ensures
        trimmed_offset(uris.len(), Some(i)) is Some,
        trimmed_offset(uris.len(), Some(i))->0 < trimmed_uris(uris, Some(i)).len(),
        trimmed_uris(uris, Some(i))[trimmed_offset(uris.len(), Some(i))->0 as int]
            == uris[i as int],
{
}

/// A restore seeks to the very position of the snapshot wherever that lies before
/// the end of the track, or the length of the track is not known, whether it
/// played or was paused.
pub proof fn law_a_restore_seeks_to_where_playback_was(snapshot: NativePlaybackRecoverySnapshot)
    requires
        restore_load(snapshot) is Some,
        snapshot.track_duration_ms is None || snapshot.position_ms
            < snapshot.track_duration_ms->0,
    ensures
        restore_load(snapshot)->0.seek_to == snapshot.position_ms,
        restore_load(snapshot)->0.start_playing == snapshot.desired_playing,
{
}

} // verus!
