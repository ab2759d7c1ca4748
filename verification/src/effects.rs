//! What the rules of playback ask of the rest of the program.

use crate::items::RepeatState;
use crate::json::Json;
use crate::request::optional_json;
use crate::text::{optional_text, optional_texts, texts};
use serde_json::Value;
use vstd::prelude::*;

verus! {

/// An event for the program's queue.
#[derive(Debug, PartialEq, Eq)]
pub enum IoEvent {
    RefreshAuthentication,
    GetCurrentPlayback,
    IncrementGlobalSongCount,
    CurrentUserSavedTracksContains(Vec<String>),
    PreviousTrack,
}

/// A request to start playback in the form in which it is kept for later.
#[derive(Debug, PartialEq, Eq)]
pub struct KeptRequest {
    pub context_uri: Option<String>,
    pub uris: Option<Vec<String>>,
    pub offset: Option<usize>,
}

/// What plugins are told the age of.
#[derive(Clone, Copy, Debug, PartialEq, Eq, Structural)]
pub enum PluginDataKind {
    Devices,
    Queue,
}

/// Something that the program is to do.
#[derive(Debug, PartialEq, Eq)]
pub enum Effect {
    /// The native player takes playback over.
    Transfer,
    /// The native player becomes the active device.
    Activate,
    Play,
    Pause,
    Next,
    Previous,
    /// As `Previous`, but after so many milliseconds.
    PreviousAfter(u64),
    Seek(u32),
    SetShuffle(bool),
    SetRepeat(RepeatState),
    SetVolume(u8),
    Dispatch(IoEvent),
    /// As `Dispatch`, but after so many milliseconds.
    DispatchAfter { event: IoEvent, millis: u64 },
    SetStatusMessage { message: String, ttl_secs: u64 },
    /// As `SetStatusMessage`, once the state is free for others.
    ShowStatusMessage { message: String, ttl_secs: u64 },
    /// The full-screen error is shown.
    HandleError(String),
    /// The device is remembered across sessions.
    PersistDeviceId(String),
    MarkNativeDeviceAvailable { device_id: String, device_name: String, volume: u8 },
    /// The request is kept, to be made again once the native player is back.
    ParkStartPlayback(KeptRequest),
    /// What plays natively is noted, to be restored after a lost connection.
    RecordNativePlaybackRequest {
        request: KeptRequest,
        desired_playing: bool,
        shuffle: bool,
        repeat: RepeatState,
    },
    SetNativePlaybackIntent(bool),
    ClearNativeShuffleSession,
    ForceNativeStreamingRecovery,
    ClearNativePlaybackRecovery,
    ClearNativeRestore,
    SetNativeRecoveryPosition(u32),
    SetNativeRecoveryShuffle(bool),
    SetNativeRecoveryRepeat(RepeatState),
    BumpPluginData(PluginDataKind),
}

/// An event, its texts by their characters.
pub enum IoEventView {
    RefreshAuthentication,
    GetCurrentPlayback,
    IncrementGlobalSongCount,
    CurrentUserSavedTracksContains(Seq<Seq<char>>),
    PreviousTrack,
}

/// A kept request, its texts by their characters.
pub struct KeptRequestView {
    pub context_uri: Option<Seq<char>>,
    pub uris: Option<Seq<Seq<char>>>,
    pub offset: Option<usize>,
}

/// An effect, its texts by their characters.
pub enum EffectView {
    Transfer,
    Activate,
    Play,
    Pause,
    Next,
    Previous,
    PreviousAfter(u64),
    Seek(u32),
    SetShuffle(bool),
    SetRepeat(RepeatState),
    SetVolume(u8),
    Dispatch(IoEventView),
    DispatchAfter { event: IoEventView, millis: u64 },
    SetStatusMessage { message: Seq<char>, ttl_secs: u64 },
    ShowStatusMessage { message: Seq<char>, ttl_secs: u64 },
    HandleError(Seq<char>),
    PersistDeviceId(Seq<char>),
    MarkNativeDeviceAvailable { device_id: Seq<char>, device_name: Seq<char>, volume: u8 },
    ParkStartPlayback(KeptRequestView),
    RecordNativePlaybackRequest {
        request: KeptRequestView,
        desired_playing: bool,
        shuffle: bool,
        repeat: RepeatState,
    },
    SetNativePlaybackIntent(bool),
    ClearNativeShuffleSession,
    ForceNativeStreamingRecovery,
    ClearNativePlaybackRecovery,
    ClearNativeRestore,
    SetNativeRecoveryPosition(u32),
    SetNativeRecoveryShuffle(bool),
    SetNativeRecoveryRepeat(RepeatState),
    BumpPluginData(PluginDataKind),
}

impl View for IoEvent {
    type V = IoEventView;

    open spec fn view(&self) -> IoEventView {
        match *self {
            IoEvent::RefreshAuthentication => IoEventView::RefreshAuthentication,
            IoEvent::GetCurrentPlayback => IoEventView::GetCurrentPlayback,
            IoEvent::IncrementGlobalSongCount => IoEventView::IncrementGlobalSongCount,
            IoEvent::CurrentUserSavedTracksContains(
                ids,
            ) => IoEventView::CurrentUserSavedTracksContains(texts(ids@)),
            IoEvent::PreviousTrack => IoEventView::PreviousTrack,
        }
    }
}

impl View for KeptRequest {
    type V = KeptRequestView;

    open spec fn view(&self) -> KeptRequestView {
        KeptRequestView {
            context_uri: optional_text(self.context_uri),
            uris: optional_texts(self.uris),
            offset: self.offset,
        }
    }
}

impl View for Effect {
    type V = EffectView;

    open spec fn view(&self) -> EffectView {
        match *self {
            Effect::Transfer => EffectView::Transfer,
            Effect::Activate => EffectView::Activate,
            Effect::Play => EffectView::Play,
            Effect::Pause => EffectView::Pause,
            Effect::Next => EffectView::Next,
            Effect::Previous => EffectView::Previous,
            Effect::PreviousAfter(millis) => EffectView::PreviousAfter(millis),
            Effect::Seek(position) => EffectView::Seek(position),
            Effect::SetShuffle(shuffle) => EffectView::SetShuffle(shuffle),
            Effect::SetRepeat(repeat) => EffectView::SetRepeat(repeat),
            Effect::SetVolume(volume) => EffectView::SetVolume(volume),
            Effect::Dispatch(event) => EffectView::Dispatch(event@),
            Effect::DispatchAfter { event, millis } => EffectView::DispatchAfter {
                event: event@,
                millis,
            },
            Effect::SetStatusMessage { message, ttl_secs } => EffectView::SetStatusMessage {
                message: message@,
                ttl_secs,
            },
            Effect::ShowStatusMessage { message, ttl_secs } => EffectView::ShowStatusMessage {
                message: message@,
                ttl_secs,
            },
            Effect::HandleError(error) => EffectView::HandleError(error@),
            Effect::PersistDeviceId(id) => EffectView::PersistDeviceId(id@),
            Effect::MarkNativeDeviceAvailable {
                device_id,
                device_name,
                volume,
            } => EffectView::MarkNativeDeviceAvailable {
                device_id: device_id@,
                device_name: device_name@,
                volume,
            },
            Effect::ParkStartPlayback(request) => EffectView::ParkStartPlayback(request@),
            Effect::RecordNativePlaybackRequest {
                request,
                desired_playing,
                shuffle,
                repeat,
            } => EffectView::RecordNativePlaybackRequest {
                request: request@,
                desired_playing,
                shuffle,
                repeat,
            },
            Effect::SetNativePlaybackIntent(playing) => EffectView::SetNativePlaybackIntent(
                playing,
            ),
            Effect::ClearNativeShuffleSession => EffectView::ClearNativeShuffleSession,
            Effect::ForceNativeStreamingRecovery => EffectView::ForceNativeStreamingRecovery,
            Effect::ClearNativePlaybackRecovery => EffectView::ClearNativePlaybackRecovery,
            Effect::ClearNativeRestore => EffectView::ClearNativeRestore,
            Effect::SetNativeRecoveryPosition(position) => EffectView::SetNativeRecoveryPosition(
                position,
            ),
            Effect::SetNativeRecoveryShuffle(shuffle) => EffectView::SetNativeRecoveryShuffle(
                shuffle,
            ),
            Effect::SetNativeRecoveryRepeat(repeat) => EffectView::SetNativeRecoveryRepeat(repeat),
            Effect::BumpPluginData(kind) => EffectView::BumpPluginData(kind),
        }
    }
}

/// The effects that are asked for, in their order.
#[derive(Debug, PartialEq, Eq)]
pub struct Outbox {
    pub effects: Vec<Effect>,
}

impl View for Outbox {
    type V = Seq<EffectView>;

    open spec fn view(&self) -> Seq<EffectView> {
        self.effects@.map_values(|effect: Effect| effect@)
    }
}

impl Outbox {
    /// An outbox without effects.
    pub fn new() -> (r: Outbox)
        ensures
            r@ == Seq::<EffectView>::empty(),
    {
        let r = Outbox { effects: Vec::new() };
        assert(r@ =~= Seq::<EffectView>::empty());
        r
    }

    /// Asks for an effect after those that were asked for before.
    pub fn push(&mut self, effect: Effect)
        ensures
            final(self)@ == old(self)@.push(effect@),
    {
        self.effects.push(effect);
        assert(self@ =~= old(self)@.push(effect@));
    }

    /// Asks for a status message.
    pub fn status(&mut self, message: &str, ttl_secs: u64)
        ensures
            final(self)@ == old(self)@.push(
                EffectView::SetStatusMessage { message: message@, ttl_secs },
            ),
    {
        self.push(Effect::SetStatusMessage { message: message.to_string(), ttl_secs });
    }

    /// Asks for the full-screen error.
    pub fn error(&mut self, message: &str)
        ensures
            final(self)@ == old(self)@.push(EffectView::HandleError(message@)),
    {
        self.push(Effect::HandleError(message.to_string()));
    }
}

/// The method of a Web API request.
#[derive(Clone, Copy, Debug, PartialEq, Eq, Structural)]
pub enum ApiMethod {
    Get,
    Put,
    Post,
}

/// A request to the Web API.
#[derive(Debug, PartialEq)]
pub struct ApiCall {
    pub method: ApiMethod,
    pub path: &'static str,
    pub query: Vec<(&'static str, String)>,
    pub body: Option<Value>,
}

/// A request to the Web API, its texts by their characters.
pub struct ApiCallView {
    pub method: ApiMethod,
    pub path: Seq<char>,
    pub query: Seq<(Seq<char>, Seq<char>)>,
    pub body: Option<Json>,
}

impl View for ApiCall {
    type V = ApiCallView;

    open spec fn view(&self) -> ApiCallView {
        ApiCallView {
            method: self.method,
            path: self.path@,
            query: self.query@.map_values(|pair: (&'static str, String)| (pair.0@, pair.1@)),
            body: optional_json(self.body),
        }
    }
}

/// A request without a query.
pub open spec fn plain_call(method: ApiMethod, path: Seq<char>, body: Option<Json>) -> ApiCallView {
    ApiCallView { method, path, query: Seq::empty(), body }
}

/// A request with one pair in its query.
pub open spec fn query_call(
    method: ApiMethod,
    path: Seq<char>,
    key: Seq<char>,
    value: Seq<char>,
    body: Option<Json>,
) -> ApiCallView {
    ApiCallView { method, path, query: Seq::empty().push((key, value)), body }
}

impl ApiCall {
    /// A request without a query.
    pub fn new(method: ApiMethod, path: &'static str, body: Option<Value>) -> (r: ApiCall)
        ensures
            r@ == plain_call(method, path@, optional_json(body)),
    {
        let r = ApiCall { method, path, query: Vec::new(), body };
        assert(r@.query =~= Seq::empty());
        r
    }

    /// The request with one more pair in its query.
    pub fn with(self, key: &'static str, value: String) -> (r: ApiCall)
        ensures
            r@ == (ApiCallView { query: self@.query.push((key@, value@)), ..self@ }),
    {
        let mut query = self.query;
        query.push((key, value));
        let r = ApiCall { method: self.method, path: self.path, query, body: self.body };
        assert(r@.query =~= self@.query.push((key@, value@)));
        r
    }
}

/// The contents of an optional request.
pub open spec fn optional_call(call: Option<ApiCall>) -> Option<ApiCallView> {
    match call {
        Some(c) => Some(c@),
        None => None,
    }
}

/// What is read of a request that is kept, or of an event, is what it holds.
pub proof fn law_events_and_kept_requests_are_read_as_they_are(
    event: IoEvent,
    kept: KeptRequest,
)
    ensures
        event is RefreshAuthentication ==> event@ is RefreshAuthentication,
        event is GetCurrentPlayback ==> event@ is GetCurrentPlayback,
        event is IncrementGlobalSongCount ==> event@ is IncrementGlobalSongCount,
        event is PreviousTrack ==> event@ is PreviousTrack,
        event matches IoEvent::CurrentUserSavedTracksContains(ids) ==> event@
            == IoEventView::CurrentUserSavedTracksContains(texts(ids@)),
        kept.context_uri is None ==> kept@.context_uri is None,
        kept.context_uri is Some ==> kept@.context_uri == Some(kept.context_uri->0@),
        kept.uris is None ==> kept@.uris is None,
        kept.uris is Some ==> kept@.uris == Some(texts(kept.uris->0@)),
        kept@.offset == kept.offset,
{
}

/// What is read of an effect is what it holds: the same thing to do, with the
/// same values.
pub proof fn law_effects_are_read_as_they_are(effect: Effect)
    ensures
        effect is Transfer ==> effect@ is Transfer,
        effect is Activate ==> effect@ is Activate,
        effect is Play ==> effect@ is Play,
        effect is Pause ==> effect@ is Pause,
        effect is Next ==> effect@ is Next,
        effect is Previous ==> effect@ is Previous,
        effect matches Effect::PreviousAfter(x) ==> effect@ == EffectView::PreviousAfter(x),
        effect matches Effect::Seek(x) ==> effect@ == EffectView::Seek(x),
        effect matches Effect::SetShuffle(x) ==> effect@ == EffectView::SetShuffle(x),
        effect matches Effect::SetRepeat(x) ==> effect@ == EffectView::SetRepeat(x),
        effect matches Effect::SetVolume(x) ==> effect@ == EffectView::SetVolume(x),
        effect matches Effect::Dispatch(x) ==> effect@ == EffectView::Dispatch(x@),
        effect matches Effect::DispatchAfter { event, millis } ==> effect@
            == (EffectView::DispatchAfter { event: event@, millis }),
        effect matches Effect::SetStatusMessage { message, ttl_secs } ==> effect@
            == (EffectView::SetStatusMessage { message: message@, ttl_secs }),
        effect matches Effect::ShowStatusMessage { message, ttl_secs } ==> effect@
            == (EffectView::ShowStatusMessage { message: message@, ttl_secs }),
        effect matches Effect::HandleError(x) ==> effect@ == EffectView::HandleError(x@),
        effect matches Effect::PersistDeviceId(x) ==> effect@ == EffectView::PersistDeviceId(x@),
        effect matches Effect::MarkNativeDeviceAvailable { device_id, device_name, volume }
            ==> effect@ == (EffectView::MarkNativeDeviceAvailable {
            device_id: device_id@,
            device_name: device_name@,
            volume,
        }),
        effect matches Effect::ParkStartPlayback(x) ==> effect@ == EffectView::ParkStartPlayback(
            x@,
        ),
        effect matches Effect::RecordNativePlaybackRequest {
            request,
            desired_playing,
            shuffle,
            repeat,
        } ==> effect@ == (EffectView::RecordNativePlaybackRequest {
            request: request@,
            desired_playing,
            shuffle,
            repeat,
        }),
        effect matches Effect::SetNativePlaybackIntent(x) ==> effect@
            == EffectView::SetNativePlaybackIntent(x),
        effect is ClearNativeShuffleSession ==> effect@ is ClearNativeShuffleSession,
        effect is ForceNativeStreamingRecovery ==> effect@ is ForceNativeStreamingRecovery,
        effect is ClearNativePlaybackRecovery ==> effect@ is ClearNativePlaybackRecovery,
        effect is ClearNativeRestore ==> effect@ is ClearNativeRestore,
        effect matches Effect::SetNativeRecoveryPosition(x) ==> effect@
            == EffectView::SetNativeRecoveryPosition(x),
        effect matches Effect::SetNativeRecoveryShuffle(x) ==> effect@
            == EffectView::SetNativeRecoveryShuffle(x),
        effect matches Effect::SetNativeRecoveryRepeat(x) ==> effect@
            == EffectView::SetNativeRecoveryRepeat(x),
        effect matches Effect::BumpPluginData(x) ==> effect@ == EffectView::BumpPluginData(x),
{
}

/// An outbox keeps its effects in the order in which they were asked for: what
/// is asked for comes last, and what was there stays where it is.
pub proof fn law_effects_keep_their_order(effect: Effect, out: &mut Outbox, i: int)
    requires
        call_ensures(Outbox::push, (out, effect), ()),
        0 <= i < old(out)@.len(),
    ensures
        final(out)@.len() == old(out)@.len() + 1,
        final(out)@.last() == effect@,
        final(out)@[i] == old(out)@[i],
        final(out)@.len() == final(out).effects@.len(),
        final(out)@[i] == final(out).effects@[i]@,
{
}

/// A status message and an error are asked for with the text that is given.
pub proof fn law_messages_are_asked_for_as_given(
    message: &str,
    ttl_secs: u64,
    told: &mut Outbox,
    failed: &mut Outbox,
)
    requires
        call_ensures(Outbox::status, (told, message, ttl_secs), ()),
        call_ensures(Outbox::error, (failed, message), ()),
    ensures
        final(told)@ == old(told)@ + seq![
            EffectView::SetStatusMessage { message: message@, ttl_secs },
        ],
        final(failed)@ == old(failed)@ + seq![EffectView::HandleError(message@)],
{
}

/// A request is made as it is described: it has the method, the path and the
/// body that are given, and a pair more in its query behind those before it.
pub proof fn law_a_request_is_made_as_described(
    method: ApiMethod,
    path: &'static str,
    body: Option<Value>,
    made: ApiCall,
    key: &'static str,
    value: String,
    extended: ApiCall,
)
    requires
        call_ensures(ApiCall::new, (method, path, body), made),
        call_ensures(ApiCall::with, (made, key, value), extended),
    ensures
        made@.method == method,
        made@.path == path@,
        made@.query.len() == 0,
        body is None ==> made@.body is None,
        body is Some ==> made@.body == Some(crate::json::json_of(body->0)),
        extended@.method == method,
        extended@.path == path@,
        extended@.query == seq![(key@, value@)],
        extended@.body == made@.body,
        made@.method == made.method,
        made@.path == made.path@,
        made@.query.len() == made.query@.len(),
        extended@.query.len() == extended.query@.len(),
        extended@.query[0].0 == extended.query@[0].0@,
        extended@.query[0].1 == extended.query@[0].1@,
{
    assert(extended@.query =~= seq![(key@, value@)]);
}

/// An outbox begins without effects.
pub proof fn law_an_outbox_begins_empty(r: Outbox)
    requires
        call_ensures(Outbox::new, (), r),
    ensures
        r@.len() == 0,
        r.effects@.len() == 0,
{
    assert(r@.len() == r.effects@.len());
}

} // verus!
