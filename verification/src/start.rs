//! How playback is started.
//!
//! A start runs in steps. Each step returns what is to be done next and what
//! the step after it needs to know; the program does it and hands the answer
//! back.

use crate::device::{
    native_device_preference_update, saved_device_matches_native_player,
    NativeDevicePreferenceUpdate,
};
use crate::effects::{
    plain_call, query_call, ApiCall, ApiCallView, ApiMethod, Effect, EffectView, IoEvent,
    IoEventView, KeptRequest, KeptRequestView, Outbox,
};
use crate::errors::{is_no_active_device_error, no_active_device};
use crate::ids::{
    optional_context_uri, optional_playable_uris, optional_uri_of, optional_uris_of, uris_of,
    PlayContextId, PlayableId,
};
use crate::items::RepeatState;
use crate::json::Json;
use crate::preference::{persist_effects, persist_native_device_id_if_needed, remembers};
use crate::request::{
    api_playback_body, body_json, native_load_request, start_load, trim_api_playback_uris,
    trimmed_offset, trimmed_uris, Load, NativeLoadRequest, MAX_API_PLAYBACK_URIS,
};
use crate::state::{
    as_slice, selected, NativePlaybackOrigin, NativePlayer, PlaybackBackend, PlaybackEnv,
    PlaybackState,
};
use crate::text::{
    copy_optional_text, optional_text, same_ignoring_ascii_case, same_optional_text,
    same_optional_texts, truth, truth_text, unicode_lowered,
};
use vstd::prelude::*;

verus! {

/// A request to start playback: of a context, of a list, or of what played last.
#[derive(Debug, PartialEq, Eq)]
pub struct PlaybackRequest {
    pub context: Option<PlayContextId>,
    pub uris: Option<Vec<PlayableId>>,
    pub offset: Option<usize>,
}

impl PlaybackRequest {
    /// Whether this only resumes what played last.
    pub open spec fn spec_is_resume(self) -> bool {
        self.context is None && self.uris is None
    }

    /// The request in the form in which it is kept for later.
    pub open spec fn spec_kept(self) -> KeptRequestView {
        KeptRequestView {
            context_uri: optional_uri_of(self.context),
            uris: optional_uris_of(self.uris),
            offset: self.offset,
        }
    }

    /// Whether this is `request` in the form in which it is sent: a list on its
    /// own is cut to what Spotify accepts.
    pub open spec fn is_trimmed_from(self, request: PlaybackRequest) -> bool {
        if request.context is None && request.uris is Some {
            &&& self.context is None
            &&& self.uris is Some
            &&& self.uris->0@ == trimmed_uris(request.uris->0@, request.offset)
            &&& self.offset == trimmed_offset(request.uris->0@.len(), request.offset)
        } else {
            self == request
        }
    }

    /// Whether this only resumes what played last.
    pub fn is_resume(&self) -> (r: bool)
        ensures
            r == self.spec_is_resume(),
    {
        self.context.is_none() && self.uris.is_none()
    }

    /// The request in the form in which it is kept for later.
    pub fn kept(&self) -> (r: KeptRequest)
        ensures
            r@ == self.spec_kept(),
    {
        KeptRequest {
            context_uri: optional_context_uri(&self.context),
            uris: optional_playable_uris(&self.uris),
            offset: self.offset,
        }
    }

    fn trimmed(self) -> (r: PlaybackRequest)
        ensures
            r.is_trimmed_from(self),
    {
        if self.context.is_none() {
            if let Some(list) = self.uris {
                let (uris, offset) = trim_api_playback_uris(list, self.offset);
                return PlaybackRequest { context: None, uris: Some(uris), offset };
            }
            return PlaybackRequest { context: None, uris: None, offset: self.offset };
        }
        self
    }

    /// The body of the request to the Web API.
    pub open spec fn spec_body(self) -> Option<Json> {
        body_json(optional_uri_of(self.context), optional_uris_of(self.uris), self.offset)
    }

    fn body(&self) -> (r: Option<serde_json::Value>)
        ensures
            crate::request::optional_json(r) == self.spec_body(),
    {
        let uris: Option<&[PlayableId]> = match &self.uris {
            Some(list) => Some(list.as_slice()),
            None => None,
        };
        api_playback_body(self.context.as_ref(), uris, self.offset)
    }

    /// The load of the native player.
    pub open spec fn spec_load(self) -> Option<Load> {
        start_load(optional_uri_of(self.context), optional_uris_of(self.uris), self.offset)
    }
}

/// A start that is under way: what is started, and whether it is shuffled.
#[derive(Debug, PartialEq, Eq)]
pub struct StartPlan {
    pub request: PlaybackRequest,
    pub shuffle: bool,
}

/// A start on the native player that is under way.
#[derive(Debug, PartialEq, Eq)]
pub struct NativeStart {
    pub plan: StartPlan,
    pub device_id: String,
    pub device_name: String,
}

/// What a load of the native player is for.
#[derive(Debug, PartialEq, Eq)]
pub enum LoadStage {
    /// A start on the native player. Where the load fails, the Web API is asked
    /// to start the context on the device given here.
    Direct { plan: StartPlan, fallback: Option<String> },
    /// A start that the Web API had no device for.
    Fallback { plan: StartPlan },
}

/// What a request to the Web API is for.
#[derive(Debug, PartialEq, Eq)]
#[allow(inconsistent_fields)]
pub enum ApiStage {
    /// Resuming on the native device.
    NativeResume { device_id: String, device_name: String },
    /// Starting a context on the native device.
    ContextPlay { plan: StartPlan, device_id: String },
    /// Shuffling that context or not.
    ContextShuffle { plan: StartPlan },
    /// Starting on whatever device is active.
    ConnectPlay { plan: StartPlan },
    /// Shuffling that playback or not.
    ConnectShuffle { shuffle: bool },
    /// Resuming on the native device, as no device was active.
    FallbackResume { device_name: String },
}

/// What comes next in a start.
#[derive(Debug, PartialEq)]
pub enum StartNext {
    Done,
    /// The program tries to start playback in a shuffled order of its own.
    TryShuffled(NativeStart),
    /// The native player loads.
    Load(NativeLoadRequest, LoadStage),
    /// The Web API is asked.
    Api(ApiCall, ApiStage),
}

/// What comes next in a start, requests by their contents.
pub enum StartNextView {
    Done,
    TryShuffled(NativeStart),
    Load(Load, LoadStage),
    Api(ApiCallView, ApiStage),
}

impl View for StartNext {
    type V = StartNextView;

    open spec fn view(&self) -> StartNextView {
        match *self {
            StartNext::Done => StartNextView::Done,
            StartNext::TryShuffled(native) => StartNextView::TryShuffled(native),
            StartNext::Load(load, stage) => StartNextView::Load(load@, stage),
            StartNext::Api(call, stage) => StartNextView::Api(call@, stage),
        }
    }
}

/// The request to play on a device.
pub open spec fn play_on(device_id: Seq<char>, body: Option<Json>) -> ApiCallView {
    query_call(ApiMethod::Put, "me/player/play"@, "device_id"@, device_id, body)
}

/// The request to shuffle on a device or not.
pub open spec fn shuffle_on(shuffle: bool, device_id: Seq<char>) -> ApiCallView {
    ApiCallView {
        method: ApiMethod::Put,
        path: "me/player/shuffle"@,
        query: Seq::empty().push(("state"@, truth(shuffle))).push(("device_id"@, device_id)),
        body: None,
    }
}

fn play_call_on(device_id: &String, body: Option<serde_json::Value>) -> (r: ApiCall)
    ensures
        r@ == play_on(device_id@, crate::request::optional_json(body)),
{
    ApiCall::new(ApiMethod::Put, "me/player/play", body).with("device_id", device_id.clone())
}

/// What is told where a native start failed.
pub open spec fn start_failure(error: Seq<char>) -> Seq<char> {
    "Failed to start native playback: "@ + error
}

fn start_failure_text(error: &str) -> (r: String)
    ensures
        r@ == start_failure(error@),
{
    "Failed to start native playback: ".to_string().concat(error)
}

/// What is told where there was nothing to resume on a device.
pub open spec fn nothing_to_resume(device_name: Seq<char>) -> EffectView {
    EffectView::SetStatusMessage {
        message: "No playback to resume on "@ + device_name + "."@,
        ttl_secs: 4,
    }
}

fn report_nothing_to_resume(device_name: &str, out: &mut Outbox)
    ensures
        final(out)@ == old(out)@.push(nothing_to_resume(device_name@)),
{
    let message = "No playback to resume on ".to_string().concat(device_name).concat(".");
    out.push(Effect::SetStatusMessage { message, ttl_secs: 4 });
}

/// Whether playback that is started is shuffled: as the playback before it, or
/// as the user's settings have it.
pub open spec fn desired_shuffle(state: PlaybackState) -> bool {
    match state.current_playback_context {
        Some(ctx) => ctx.shuffle_state,
        None => state.shuffle_enabled,
    }
}

/// How playback that is started repeats: as the playback before it.
pub open spec fn desired_repeat(state: PlaybackState) -> RepeatState {
    match state.current_playback_context {
        Some(ctx) => ctx.repeat_state,
        None => RepeatState::Off,
    }
}

/// What native playback runs through after a request: what the request names,
/// else what it ran through before.
pub open spec fn requested_origin(
    state: PlaybackState,
    request: PlaybackRequest,
) -> NativePlaybackOrigin {
    if request.context is Some {
        NativePlaybackOrigin::Context
    } else if request.uris is Some {
        NativePlaybackOrigin::RawList
    } else {
        match state.native_playback_origin {
            Some(origin) => origin,
            None => match state.current_playback_context {
                Some(ctx) => if ctx.has_context {
                    NativePlaybackOrigin::Context
                } else {
                    NativePlaybackOrigin::RawList
                },
                None => NativePlaybackOrigin::RawList,
            },
        }
    }
}

/// Whether the native player has to take playback over: not where it has it,
/// and not right after it was activated.
pub open spec fn has_to_transfer(state: PlaybackState, env: PlaybackEnv) -> bool {
    &&& !state.recently_activated(env.now)
    &&& state.native_activation_pending || !state.is_streaming_active
}

/// The state after the native player was chosen for a start.
pub open spec fn after_entry(
    state: PlaybackState,
    env: PlaybackEnv,
    player: NativePlayer,
    request: PlaybackRequest,
) -> PlaybackState {
    PlaybackState {
        is_streaming_active: true,
        native_activation_pending: false,
        last_device_activation: Some(env.now),
        native_playback_origin: Some(requested_origin(state, request)),
        native_device_id: Some(player.device_id),
        native_idle_recovery: state.native_idle_recovery.settled(env.now),
        ..state
    }
}

/// The note of what plays natively.
pub open spec fn record_of(state: PlaybackState, plan: StartPlan) -> EffectView {
    EffectView::RecordNativePlaybackRequest {
        request: plan.request.spec_kept(),
        desired_playing: true,
        shuffle: plan.shuffle,
        repeat: desired_repeat(state),
    }
}

/// The effects of choosing the native player for a start: it takes playback
/// over where it has to, is activated and remembered, and what is to play is
/// noted.
pub open spec fn entry_effects(
    out: Seq<EffectView>,
    state: PlaybackState,
    env: PlaybackEnv,
    player: NativePlayer,
    plan: StartPlan,
) -> Seq<EffectView> {
    let transferred = if has_to_transfer(state, env) {
        out.push(EffectView::Transfer)
    } else {
        out
    };
    let remembered = persist_effects(
        transferred.push(EffectView::Activate),
        optional_text(env.saved_device_id),
        player.device_id@,
        remembers(state, env, player, false),
    );
    if plan.request.spec_is_resume() {
        remembered.push(EffectView::SetNativePlaybackIntent(true))
    } else {
        remembered.push(record_of(state, plan))
    }
}

/// Whether something is known that the native player can resume by itself.
pub open spec fn can_resume_direct(state: PlaybackState) -> bool {
    state.native_track_info is Some || state.last_track_id is Some
}

/// The device on which the Web API can start a context natively.
pub open spec fn context_route(state: PlaybackState, request: PlaybackRequest) -> Option<String> {
    if request.context is Some {
        state.native_device_id
    } else {
        None
    }
}

/// Whether the request is made again because a load of it was accepted before
/// and nothing played.
pub open spec fn is_replay(state: PlaybackState, request: PlaybackRequest) -> bool {
    &&& state.pending_start_playback is Some
    &&& state.pending_start_playback->0.recovery_attempts > 0
    &&& state.pending_start_playback->0.request@ == request.spec_kept()
}

/// What comes next where the native player plays.
pub open spec fn native_next(state: PlaybackState, native: NativeStart) -> StartNextView {
    let request = native.plan.request;
    if request.spec_is_resume() {
        if can_resume_direct(state) {
            StartNextView::Done
        } else {
            StartNextView::Api(
                play_on(native.device_id@, None),
                ApiStage::NativeResume {
                    device_id: native.device_id,
                    device_name: native.device_name,
                },
            )
        }
    } else {
        let fallback = context_route(state, request);
        if is_replay(state, request) && fallback is Some {
            context_next(native.plan, fallback->0)
        } else {
            StartNextView::Load(
                request.spec_load()->0,
                LoadStage::Direct { plan: native.plan, fallback },
            )
        }
    }
}

/// Starting a context on a device through the Web API.
pub open spec fn context_next(plan: StartPlan, device_id: String) -> StartNextView {
    StartNextView::Api(
        play_on(device_id@, plan.request.spec_body()),
        ApiStage::ContextPlay { plan, device_id },
    )
}

/// The state where the native player plays: it resumes by itself where it can.
pub open spec fn after_route(state: PlaybackState, native: NativeStart) -> PlaybackState {
    if native.plan.request.spec_is_resume() && can_resume_direct(state) {
        state.with_playing(true)
    } else {
        state
    }
}

/// The effects where the native player plays: it resumes by itself where it can.
pub open spec fn route_effects(
    out: Seq<EffectView>,
    state: PlaybackState,
    native: NativeStart,
) -> Seq<EffectView> {
    if native.plan.request.spec_is_resume() && can_resume_direct(state) {
        out.push(EffectView::Play)
    } else {
        out
    }
}

/// The state with playback running as it was started.
pub open spec fn after_started(state: PlaybackState, shuffle: bool) -> PlaybackState {
    PlaybackState {
        shuffle_enabled: shuffle,
        ..state.with_playing(true).with_shuffle(shuffle)
    }
}

/// The start on the native player that a plan leads to.
pub open spec fn native_start(plan: StartPlan, player: NativePlayer) -> NativeStart {
    NativeStart { plan, device_id: player.device_id, device_name: player.device_name }
}

/// What comes next once it is known that the native player does not have to be
/// recovered first.
pub open spec fn next_after_check(
    state: PlaybackState,
    env: PlaybackEnv,
    plan: StartPlan,
) -> StartNextView {
    match selected(state.starts_natively(env), env.player) {
        Some(player) => if plan.shuffle {
            StartNextView::TryShuffled(native_start(plan, player))
        } else {
            native_next(after_entry(state, env, player, plan.request), native_start(plan, player))
        },
        None => StartNextView::Api(
            plain_call(ApiMethod::Put, "me/player/play"@, plan.request.spec_body()),
            ApiStage::ConnectPlay { plan },
        ),
    }
}

/// The state once it is known that the native player does not have to be
/// recovered first.
pub open spec fn after_check(
    state: PlaybackState,
    env: PlaybackEnv,
    plan: StartPlan,
) -> PlaybackState {
    match selected(state.starts_natively(env), env.player) {
        Some(player) => {
            let entered = after_entry(state, env, player, plan.request);
            if plan.shuffle {
                entered
            } else {
                after_route(entered, native_start(plan, player))
            }
        },
        None => state,
    }
}

/// The effects once it is known that the native player does not have to be
/// recovered first.
pub open spec fn check_effects(
    out: Seq<EffectView>,
    state: PlaybackState,
    env: PlaybackEnv,
    plan: StartPlan,
) -> Seq<EffectView> {
    match selected(state.starts_natively(env), env.player) {
        Some(player) => {
            let entered = entry_effects(out, state, env, player, plan);
            if plan.shuffle {
                entered
            } else {
                route_effects(
                    entered,
                    after_entry(state, env, player, plan.request),
                    native_start(plan, player),
                )
            }
        },
        None => out,
    }
}

impl PlaybackState {
    /// Begins a start: a list on its own is cut to what Spotify accepts, and a
    /// new target ends the shuffled order of the old one. What follows depends
    /// on whether the native player has to be recovered first.
    pub fn start_playback(&self, request: PlaybackRequest, out: &mut Outbox) -> (r: StartPlan)
        ensures
            r.request.is_trimmed_from(request),
            r.shuffle == desired_shuffle(*self),
            final(out)@ == (if request.spec_is_resume() {
                old(out)@
            } else {
                old(out)@.push(EffectView::ClearNativeShuffleSession)
            }),
    {
        if !request.is_resume() {
            out.push(Effect::ClearNativeShuffleSession);
        }
        let shuffle = match &self.current_playback_context {
            Some(ctx) => ctx.shuffle_state,
            None => self.shuffle_enabled,
        };
        StartPlan { request: request.trimmed(), shuffle }
    }

    /// What native playback runs through after a request.
    pub fn requested_native_playback_origin(&self, request: &PlaybackRequest) -> (r:
        NativePlaybackOrigin)
        ensures
            r == requested_origin(*self, *request),
    {
        if request.context.is_some() {
            return NativePlaybackOrigin::Context;
        }
        if request.uris.is_some() {
            return NativePlaybackOrigin::RawList;
        }
        if let Some(origin) = self.native_playback_origin {
            return origin;
        }
        match &self.current_playback_context {
            Some(ctx) => if ctx.has_context {
                NativePlaybackOrigin::Context
            } else {
                NativePlaybackOrigin::RawList
            },
            None => NativePlaybackOrigin::RawList,
        }
    }

    fn desired_repeat(&self) -> (r: RepeatState)
        ensures
            r == desired_repeat(*self),
    {
        match &self.current_playback_context {
            Some(ctx) => ctx.repeat_state,
            None => RepeatState::Off,
        }
    }

    /// What becomes of the saved device when a player is used.
    pub(crate) fn preference_update(
        &self,
        env: &PlaybackEnv,
        player: &NativePlayer,
        explicit_persist: bool,
    ) -> (r: NativeDevicePreferenceUpdate)
        ensures
            (r == NativeDevicePreferenceUpdate::Persist) == remembers(
                *self,
                *env,
                *player,
                explicit_persist,
            ),
    {
        let matches_native = saved_device_matches_native_player(
            as_slice(&env.saved_device_id),
            Some(player.device_id.as_str()),
            &self.devices,
            player.device_name.as_str(),
        );
        native_device_preference_update(
            as_slice(&env.saved_device_id),
            explicit_persist,
            matches_native,
        )
    }

    fn record(&self, plan: &StartPlan, out: &mut Outbox)
        ensures
            final(out)@ == old(out)@.push(record_of(*self, *plan)),
    {
        out.push(
            Effect::RecordNativePlaybackRequest {
                request: plan.request.kept(),
                desired_playing: true,
                shuffle: plan.shuffle,
                repeat: self.desired_repeat(),
            },
        );
    }

    fn enter_native(
        &mut self,
        env: &PlaybackEnv,
        player: &NativePlayer,
        plan: &StartPlan,
        out: &mut Outbox,
    )
        ensures
            *final(self) == after_entry(*old(self), *env, *player, plan.request),
            final(out)@ == entry_effects(old(out)@, *old(self), *env, *player, *plan),
    {
        let origin = self.requested_native_playback_origin(&plan.request);
        let update = self.preference_update(env, player, false);
        if !self.is_recently_activated(env.now) && (self.native_activation_pending
            || !self.is_streaming_active) {
            out.push(Effect::Transfer);
        }
        out.push(Effect::Activate);
        persist_native_device_id_if_needed(
            as_slice(&env.saved_device_id),
            out,
            player.device_id.as_str(),
            update,
        );
        if plan.request.is_resume() {
            out.push(Effect::SetNativePlaybackIntent(true));
        } else {
            self.record(plan, out);
        }
        self.native_idle_recovery.settle_current_episode(env.now);
        self.is_streaming_active = true;
        self.last_device_activation = Some(env.now);
        self.native_activation_pending = false;
        self.native_playback_origin = Some(origin);
        self.native_device_id = Some(player.device_id.clone());
    }

    fn is_replay(&self, request: &PlaybackRequest) -> (r: bool)
        ensures
            r == is_replay(*self, *request),
    {
        match &self.pending_start_playback {
            Some(pending) => {
                let kept = request.kept();
                let same_offset = match (pending.request.offset, kept.offset) {
                    (Some(a), Some(b)) => a == b,
                    (None, None) => true,
                    _ => false,
                };
                pending.recovery_attempts > 0 && same_optional_text(
                    &pending.request.context_uri,
                    &kept.context_uri,
                ) && same_optional_texts(&pending.request.uris, &kept.uris) && same_offset
            },
            None => false,
        }
    }

    /// The device on which the Web API can start a context natively: none
    /// without a context, or before the native device is known.
    pub fn resolve_native_playback_route(&self, request: &PlaybackRequest) -> (r: Option<String>)
        ensures
            r == context_route(*self, *request),
    {
        if request.context.is_none() {
            return None;
        }
        copy_optional_text(&self.native_device_id)
    }

    fn route_native(&mut self, native: NativeStart, out: &mut Outbox) -> (r: StartNext)
        ensures
            *final(self) == after_route(*old(self), native),
            final(out)@ == route_effects(old(out)@, *old(self), native),
            r@ == native_next(*old(self), native),
    {
        if native.plan.request.is_resume() {
            if self.native_track_info.is_some() || self.last_track_id.is_some() {
                out.push(Effect::Play);
                self.set_playing(true);
                return StartNext::Done;
            }
            let call = play_call_on(&native.device_id, None);
            return StartNext::Api(
                call,
                ApiStage::NativeResume {
                    device_id: native.device_id,
                    device_name: native.device_name,
                },
            );
        }
        let fallback = self.resolve_native_playback_route(&native.plan.request);
        let replay = self.is_replay(&native.plan.request);
        if replay {
            if let Some(device_id) = fallback {
                return start_native_context_via_api(native.plan, device_id);
            }
        }
        let request = &native.plan.request;
        match native_load_request(&request.context, &request.uris, request.offset) {
            Some(load) => StartNext::Load(
                load,
                LoadStage::Direct { plan: native.plan, fallback },
            ),
            None => StartNext::Done,
        }
    }

    /// Goes on with a start. Where the native player has to be recovered first,
    /// the request is kept for then. Else it goes to the native player, where
    /// that plays or is to play, or to the Web API.
    pub fn start_after_recovery_check(
        &mut self,
        env: &PlaybackEnv,
        plan: StartPlan,
        recovering: bool,
        out: &mut Outbox,
    ) -> (r: StartNext)
        ensures
            *final(self) == (if recovering {
                *old(self)
            } else {
                after_check(*old(self), *env, plan)
            }),
            final(out)@ == (if recovering {
                old(out)@.push(EffectView::ParkStartPlayback(plan.request.spec_kept()))
            } else {
                check_effects(old(out)@, *old(self), *env, plan)
            }),
            r@ == (if recovering {
                StartNextView::Done
            } else {
                next_after_check(*old(self), *env, plan)
            }),
    {
        if recovering {
            out.push(Effect::ParkStartPlayback(plan.request.kept()));
            return StartNext::Done;
        }
        match self.start_playback_backend(env) {
            PlaybackBackend::Native(player) => {
                self.enter_native(env, player, &plan, out);
                let shuffle = plan.shuffle;
                let native = NativeStart {
                    plan,
                    device_id: player.device_id.clone(),
                    device_name: player.device_name.clone(),
                };
                if shuffle {
                    return StartNext::TryShuffled(native);
                }
                self.route_native(native, out)
            },
            PlaybackBackend::Connect => {
                let call = ApiCall::new(ApiMethod::Put, "me/player/play", plan.request.body());
                StartNext::Api(call, ApiStage::ConnectPlay { plan })
            },
        }
    }

    /// Goes on with a native start after a shuffled order of the program's own
    /// was tried: nothing is left to do where that has started.
    pub fn start_after_shuffled(&mut self, native: NativeStart, handled: bool, out: &mut Outbox) -> (r:
        StartNext)
        ensures
            *final(self) == (if handled {
                *old(self)
            } else {
                after_route(*old(self), native)
            }),
            final(out)@ == (if handled {
                old(out)@
            } else {
                route_effects(old(out)@, *old(self), native)
            }),
            r@ == (if handled {
                StartNextView::Done
            } else {
                native_next(*old(self), native)
            }),
    {
        if handled {
            return StartNext::Done;
        }
        self.route_native(native, out)
    }
}

/// Starts a context on the native device through the Web API. This covers a
/// load that the player refused, and one that was accepted and played nothing.
pub fn start_native_context_via_api(plan: StartPlan, device_id: String) -> (r: StartNext)
    ensures
        r@ == context_next(plan, device_id),
{
    let call = play_call_on(&device_id, plan.request.body());
    StartNext::Api(call, ApiStage::ContextPlay { plan, device_id })
}

/// The state after the native player has loaded what is to play. A watchdog sees
/// whether it plays.
pub open spec fn after_loaded(
    state: PlaybackState,
    env: PlaybackEnv,
    shuffle: bool,
) -> PlaybackState {
    PlaybackState { native_load_watchdog: Some(env.now), ..after_started(state, shuffle) }
}

/// The state after an answer to a load.
pub open spec fn after_load_answer(
    state: PlaybackState,
    env: PlaybackEnv,
    stage: LoadStage,
    reply: Result<(), String>,
) -> PlaybackState {
    match (stage, reply) {
        (LoadStage::Direct { plan, .. }, Ok(_)) => after_loaded(state, env, plan.shuffle),
        (LoadStage::Fallback { plan }, Ok(_)) => after_loaded(state, env, plan.shuffle),
        _ => state,
    }
}

/// The effects of an answer to a load: what is to play is kept, to be asked for
/// again if nothing plays.
pub open spec fn load_effects(
    out: Seq<EffectView>,
    state: PlaybackState,
    stage: LoadStage,
    reply: Result<(), String>,
) -> Seq<EffectView> {
    match (stage, reply) {
        (LoadStage::Direct { plan, .. }, Ok(_)) => out.push(
            EffectView::SetShuffle(plan.shuffle),
        ).push(EffectView::ParkStartPlayback(plan.request.spec_kept())),
        (LoadStage::Fallback { plan }, Ok(_)) => out.push(
            EffectView::SetShuffle(plan.shuffle),
        ).push(record_of(state, plan)).push(
            EffectView::ParkStartPlayback(plan.request.spec_kept()),
        ),
        (LoadStage::Direct { fallback: Some(_), .. }, Err(_)) => out,
        (_, Err(error)) => out.push(EffectView::HandleError(start_failure(error@))),
    }
}

/// What comes next after an answer to a load: where it failed, the Web API
/// starts the context if there is one.
pub open spec fn next_after_load(stage: LoadStage, reply: Result<(), String>) -> StartNextView {
    match (stage, reply) {
        (LoadStage::Direct { plan, fallback: Some(device_id) }, Err(_)) => context_next(
            plan,
            device_id,
        ),
        _ => StartNextView::Done,
    }
}

/// The state after the native player was chosen because no device was active.
pub open spec fn after_fallback(
    state: PlaybackState,
    env: PlaybackEnv,
    player: NativePlayer,
    request: PlaybackRequest,
) -> PlaybackState {
    PlaybackState {
        instant_since_last_current_playback_poll: env.spec_backdated_poll(),
        ..after_entry(state, env, player, request)
    }
}

/// The effects of choosing the native player because no device was active.
pub open spec fn fallback_effects(
    out: Seq<EffectView>,
    state: PlaybackState,
    env: PlaybackEnv,
    player: NativePlayer,
) -> Seq<EffectView> {
    persist_effects(
        out.push(EffectView::Activate),
        optional_text(env.saved_device_id),
        player.device_id@,
        remembers(state, env, player, false),
    )
}

/// What comes next where no device was active and the native player is chosen.
pub open spec fn fallback_next(plan: StartPlan, player: NativePlayer) -> StartNextView {
    match plan.request.spec_load() {
        Some(load) => StartNextView::Load(load, LoadStage::Fallback { plan }),
        None => StartNextView::Api(
            play_on(player.device_id@, None),
            ApiStage::FallbackResume { device_name: player.device_name },
        ),
    }
}

/// Whether a start that the Web API refused goes to the native player.
pub open spec fn falls_back(env: PlaybackEnv, error: Seq<char>) -> bool {
    no_active_device(error) && env.player_available()
}

/// Whether an answer of the Web API dates the last poll back: a context has
/// started natively, or the start goes to the native player.
pub open spec fn backdates(env: PlaybackEnv, stage: ApiStage, reply: Result<(), String>) -> bool {
    ||| stage is ContextShuffle
    ||| stage is ConnectPlay && reply is Err && falls_back(env, reply->Err_0@)
}

/// The state after the Web API has started a context natively.
pub open spec fn after_context_started(
    state: PlaybackState,
    env: PlaybackEnv,
    shuffle: bool,
) -> PlaybackState {
    PlaybackState {
        instant_since_last_current_playback_poll: env.spec_backdated_poll(),
        ..after_loaded(state, env, shuffle)
    }
}

/// The state after an answer of the Web API.
pub open spec fn after_api_answer(
    state: PlaybackState,
    env: PlaybackEnv,
    stage: ApiStage,
    reply: Result<(), String>,
) -> PlaybackState {
    match (stage, reply) {
        (ApiStage::NativeResume { device_id, .. }, Ok(_)) => PlaybackState {
            native_device_id: Some(device_id),
            ..state.with_playing(true)
        },
        (ApiStage::FallbackResume { .. }, Ok(_)) => state.with_playing(true),
        (ApiStage::ContextPlay { .. }, Err(_)) => PlaybackState {
            pending_start_playback: None,
            ..state
        },
        (ApiStage::ContextShuffle { plan }, _) => after_context_started(state, env, plan.shuffle),
        (ApiStage::ConnectShuffle { shuffle }, _) => after_started(state, shuffle),
        (ApiStage::ConnectPlay { plan }, Err(error)) => if falls_back(env, error@) {
            after_fallback(state, env, env.player->0, plan.request)
        } else {
            state
        },
        _ => state,
    }
}

/// The effects of an answer of the Web API.
pub open spec fn api_effects(
    out: Seq<EffectView>,
    state: PlaybackState,
    env: PlaybackEnv,
    stage: ApiStage,
    reply: Result<(), String>,
) -> Seq<EffectView> {
    match (stage, reply) {
        (ApiStage::NativeResume { .. }, Ok(_)) => out.push(
            EffectView::Dispatch(IoEventView::GetCurrentPlayback),
        ),
        (ApiStage::NativeResume { device_name, .. }, Err(_)) => out.push(
            nothing_to_resume(device_name@),
        ),
        (ApiStage::FallbackResume { .. }, Ok(_)) => out.push(
            EffectView::Dispatch(IoEventView::GetCurrentPlayback),
        ),
        (ApiStage::FallbackResume { device_name }, Err(_)) => out.push(
            nothing_to_resume(device_name@),
        ),
        (ApiStage::ContextPlay { .. }, Ok(_)) => out,
        (ApiStage::ContextPlay { .. }, Err(error)) => out.push(
            EffectView::HandleError(start_failure(error@)),
        ),
        (ApiStage::ContextShuffle { plan }, _) => refusal_effects(out, reply).push(
            EffectView::ParkStartPlayback(plan.request.spec_kept()),
        ).push(EffectView::Dispatch(IoEventView::GetCurrentPlayback)),
        (ApiStage::ConnectShuffle { .. }, _) => refusal_effects(out, reply),
        (ApiStage::ConnectPlay { .. }, Ok(_)) => out,
        (ApiStage::ConnectPlay { plan }, Err(error)) => if falls_back(env, error@) {
            fallback_effects(out, state, env, env.player->0)
        } else if no_active_device(error@) && state.native_backend_pending {
            out.push(EffectView::ParkStartPlayback(plan.request.spec_kept())).push(
                EffectView::SetStatusMessage {
                    message: "Reconnecting native streaming; playback will resume."@,
                    ttl_secs: 6,
                },
            )
        } else {
            out.push(EffectView::HandleError(error@))
        },
    }
}

/// The effects of a request whose refusal is shown as an error.
pub open spec fn refusal_effects(out: Seq<EffectView>, reply: Result<(), String>) -> Seq<
    EffectView,
> {
    match reply {
        Ok(_) => out,
        Err(error) => out.push(EffectView::HandleError(error@)),
    }
}

/// What comes next after an answer of the Web API: what it has started is
/// shuffled or not, and what it had no device for goes to the native player.
pub open spec fn next_after_api(
    env: PlaybackEnv,
    stage: ApiStage,
    reply: Result<(), String>,
) -> StartNextView {
    match (stage, reply) {
        (ApiStage::ContextPlay { plan, device_id }, Ok(_)) => StartNextView::Api(
            shuffle_on(plan.shuffle, device_id@),
            ApiStage::ContextShuffle { plan },
        ),
        (ApiStage::ConnectPlay { plan }, Ok(_)) => StartNextView::Api(
            query_call(
                ApiMethod::Put,
                "me/player/shuffle"@,
                "state"@,
                truth(plan.shuffle),
                None,
            ),
            ApiStage::ConnectShuffle { shuffle: plan.shuffle },
        ),
        (ApiStage::ConnectPlay { plan }, Err(error)) => if falls_back(env, error@) {
            fallback_next(plan, env.player->0)
        } else {
            StartNextView::Done
        },
        _ => StartNextView::Done,
    }
}

fn report_refusal(reply: &Result<(), String>, out: &mut Outbox)
    ensures
        final(out)@ == refusal_effects(old(out)@, *reply),
{
    if let Err(error) = reply {
        out.error(error.as_str());
    }
}

impl PlaybackState {
    fn mark_started(&mut self, shuffle: bool)
        ensures
            *final(self) == after_started(*old(self), shuffle),
    {
        self.set_playing(true);
        self.set_shuffle(shuffle);
        self.shuffle_enabled = shuffle;
    }

    fn mark_loaded(&mut self, env: &PlaybackEnv, shuffle: bool)
        ensures
            *final(self) == after_loaded(*old(self), *env, shuffle),
    {
        self.mark_started(shuffle);
        self.native_load_watchdog = Some(env.now);
    }

    /// Goes on with a start after the native player has answered to a load.
    pub fn start_after_load(
        &mut self,
        env: &PlaybackEnv,
        stage: LoadStage,
        reply: Result<(), String>,
        out: &mut Outbox,
    ) -> (r: StartNext)
        ensures
            *final(self) == after_load_answer(*old(self), *env, stage, reply),
            final(out)@ == load_effects(old(out)@, *old(self), stage, reply),
            r@ == next_after_load(stage, reply),
    {
        match stage {
            LoadStage::Direct { plan, fallback } => match reply {
                Ok(_) => {
                    out.push(Effect::SetShuffle(plan.shuffle));
                    out.push(Effect::ParkStartPlayback(plan.request.kept()));
                    self.mark_loaded(env, plan.shuffle);
                    StartNext::Done
                },
                Err(error) => match fallback {
                    Some(device_id) => start_native_context_via_api(plan, device_id),
                    None => {
                        let message = start_failure_text(error.as_str());
                        out.error(message.as_str());
                        StartNext::Done
                    },
                },
            },
            LoadStage::Fallback { plan } => {
                match reply {
                    Ok(_) => {
                        out.push(Effect::SetShuffle(plan.shuffle));
                        self.record(&plan, out);
                        out.push(Effect::ParkStartPlayback(plan.request.kept()));
                        self.mark_loaded(env, plan.shuffle);
                    },
                    Err(error) => {
                        let message = start_failure_text(error.as_str());
                        out.error(message.as_str());
                    },
                }
                StartNext::Done
            },
        }
    }

    fn enter_fallback(
        &mut self,
        env: &PlaybackEnv,
        player: &NativePlayer,
        request: &PlaybackRequest,
        out: &mut Outbox,
    )
        requires
            env.can_backdate(),
        ensures
            *final(self) == after_fallback(*old(self), *env, *player, *request),
            final(out)@ == fallback_effects(old(out)@, *old(self), *env, *player),
    {
        let origin = self.requested_native_playback_origin(request);
        let update = self.preference_update(env, player, false);
        out.push(Effect::Activate);
        persist_native_device_id_if_needed(
            as_slice(&env.saved_device_id),
            out,
            player.device_id.as_str(),
            update,
        );
        self.native_idle_recovery.settle_current_episode(env.now);
        self.is_streaming_active = true;
        self.native_activation_pending = false;
        self.native_playback_origin = Some(origin);
        self.native_device_id = Some(player.device_id.clone());
        self.last_device_activation = Some(env.now);
        self.instant_since_last_current_playback_poll = env.backdated_poll();
    }

    /// Goes on with a start that the Web API refused: for want of a device it
    /// goes to the native player, or is kept until that is there.
    fn connect_refused(
        &mut self,
        env: &PlaybackEnv,
        plan: StartPlan,
        error: String,
        out: &mut Outbox,
    ) -> (r: StartNext)
        requires
            falls_back(*env, error@) ==> env.can_backdate(),
        ensures
            ({
                let stage = ApiStage::ConnectPlay { plan };
                let reply = Err(error);
                &&& *final(self) == after_api_answer(*old(self), *env, stage, reply)
                &&& final(out)@ == api_effects(old(out)@, *old(self), *env, stage, reply)
                &&& r@ == next_after_api(*env, stage, reply)
            }),
    {
        if is_no_active_device_error(error.as_str()) {
            if let Some(player) = &env.player {
                if player.available {
                    self.enter_fallback(env, player, &plan.request, out);
                    let request = &plan.request;
                    return match native_load_request(
                        &request.context,
                        &request.uris,
                        request.offset,
                    ) {
                        Some(load) => StartNext::Load(load, LoadStage::Fallback { plan }),
                        None => StartNext::Api(
                            play_call_on(&player.device_id, None),
                            ApiStage::FallbackResume { device_name: player.device_name.clone() },
                        ),
                    };
                }
            }
            if self.native_backend_pending {
                out.push(Effect::ParkStartPlayback(plan.request.kept()));
                out.status("Reconnecting native streaming; playback will resume.", 6);
                return StartNext::Done;
            }
        }
        out.error(error.as_str());
        StartNext::Done
    }

    /// Goes on with a start after the Web API has answered.
    pub fn start_after_api(
        &mut self,
        env: &PlaybackEnv,
        stage: ApiStage,
        reply: Result<(), String>,
        out: &mut Outbox,
    ) -> (r: StartNext)
        requires
            backdates(*env, stage, reply) ==> env.can_backdate(),
        ensures
            *final(self) == after_api_answer(*old(self), *env, stage, reply),
            final(out)@ == api_effects(old(out)@, *old(self), *env, stage, reply),
            r@ == next_after_api(*env, stage, reply),
    {
        match stage {
            ApiStage::NativeResume { device_id, device_name } => {
                match reply {
                    Ok(_) => {
                        self.native_device_id = Some(device_id);
                        self.set_playing(true);
                        out.push(Effect::Dispatch(IoEvent::GetCurrentPlayback));
                    },
                    Err(_) => {
                        report_nothing_to_resume(device_name.as_str(), out);
                    },
                }
                StartNext::Done
            },
            ApiStage::FallbackResume { device_name } => {
                match reply {
                    Ok(_) => {
                        self.set_playing(true);
                        out.push(Effect::Dispatch(IoEvent::GetCurrentPlayback));
                    },
                    Err(_) => {
                        report_nothing_to_resume(device_name.as_str(), out);
                    },
                }
                StartNext::Done
            },
            ApiStage::ContextPlay { plan, device_id } => match reply {
                Ok(_) => {
                    let call = ApiCall::new(ApiMethod::Put, "me/player/shuffle", None).with(
                        "state",
                        truth_text(plan.shuffle),
                    ).with("device_id", device_id);
                    StartNext::Api(call, ApiStage::ContextShuffle { plan })
                },
                Err(error) => {
                    self.pending_start_playback = None;
                    let message = start_failure_text(error.as_str());
                    out.error(message.as_str());
                    StartNext::Done
                },
            },
            ApiStage::ContextShuffle { plan } => {
                report_refusal(&reply, out);
                self.mark_loaded(env, plan.shuffle);
                self.instant_since_last_current_playback_poll = env.backdated_poll();
                out.push(Effect::ParkStartPlayback(plan.request.kept()));
                out.push(Effect::Dispatch(IoEvent::GetCurrentPlayback));
                StartNext::Done
            },
            ApiStage::ConnectPlay { plan } => match reply {
                Ok(_) => {
                    let call = ApiCall::new(ApiMethod::Put, "me/player/shuffle", None).with(
                        "state",
                        truth_text(plan.shuffle),
                    );
                    StartNext::Api(call, ApiStage::ConnectShuffle { shuffle: plan.shuffle })
                },
                Err(error) => self.connect_refused(env, plan, error, out),
            },
            ApiStage::ConnectShuffle { shuffle } => {
                report_refusal(&reply, out);
                self.mark_started(shuffle);
                StartNext::Done
            },
        }
    }
}

/// How many answers a start can still wait for.
pub open spec fn steps_left(next: StartNextView) -> nat {
    match next {
        StartNextView::Done => 0,
        StartNextView::TryShuffled(_) => 4,
        StartNextView::Load(_, stage) => match stage {
            LoadStage::Direct { .. } => 3,
            LoadStage::Fallback { .. } => 1,
        },
        StartNextView::Api(_, stage) => match stage {
            ApiStage::ContextPlay { .. } => 2,
            ApiStage::ConnectPlay { .. } => 2,
            _ => 1,
        },
    }
}

/// A start ends: every answer leaves fewer to wait for, and none waits for more
/// than four after the first decision.
pub proof fn law_a_start_ends(
    state: PlaybackState,
    env: PlaybackEnv,
    plan: StartPlan,
    native: NativeStart,
    load_stage: LoadStage,
    load: Load,
    api_stage: ApiStage,
    call: ApiCallView,
    reply: Result<(), String>,
)
    ensures
        steps_left(next_after_check(state, env, plan)) <= 4,
        steps_left(native_next(state, native)) < steps_left(StartNextView::TryShuffled(native)),
        steps_left(next_after_load(load_stage, reply)) < steps_left(
            StartNextView::Load(load, load_stage),
        ),
        steps_left(next_after_api(env, api_stage, reply)) < steps_left(
            StartNextView::Api(call, api_stage),
        ),
{
}

/// A list that is started on its own never exceeds what Spotify accepts, and the
/// item that was selected is the one that is started.
pub proof fn law_a_start_sends_the_selected_item(
    request: PlaybackRequest,
    sent: PlaybackRequest,
)
    requires
        sent.is_trimmed_from(request),
        request.context is None,
        request.uris is Some,
    ensures
        sent.uris->0@.len() <= MAX_API_PLAYBACK_URIS,
        request.uris->0@.len() > MAX_API_PLAYBACK_URIS ==> sent.uris->0@[sent.offset->0 as int]
            == request.uris->0@[crate::request::selected_index(
            request.uris->0@.len(),
            request.offset,
        )],
        request.uris->0@.len() <= MAX_API_PLAYBACK_URIS ==> sent.uris->0@ == request.uris->0@
            && sent.offset == request.offset,
{
}

/// A request that is made again because a load of it played nothing does not
/// load again: the Web API starts its context, on the native device.
pub proof fn law_a_replay_takes_another_route(state: PlaybackState, native: NativeStart)
    requires
        is_replay(state, native.plan.request),
        native.plan.request.context is Some,
        state.native_device_id is Some,
    ensures
        native_next(state, native) == context_next(native.plan, state.native_device_id->0),
        !(native_next(state, native) is Load),
{
}

/// A start for which the native player was chosen stays with it: whatever the
/// Web API is asked, it is asked of the native device.
pub proof fn law_a_native_start_stays_native(
    state: PlaybackState,
    env: PlaybackEnv,
    plan: StartPlan,
)
    requires
        state.starts_natively(env),
    ensures
        ({
            let next = next_after_check(state, env, plan);
            &&& !(next matches StartNextView::Api(_, ApiStage::ConnectPlay { .. }))
            &&& next matches StartNextView::Api(call, _) ==> call.query.contains(
                ("device_id"@, env.player->0.device_id@),
            )
        }),
{
    let next = next_after_check(state, env, plan);
    if next is Api {
        let call = next->Api_0;
        assert(call.query[0] == ("device_id"@, env.player->0.device_id@));
    }
}

/// A start never replaces another device that was saved.
pub proof fn law_a_start_keeps_a_saved_external_device(
    out: Seq<EffectView>,
    state: PlaybackState,
    env: PlaybackEnv,
    player: NativePlayer,
    plan: StartPlan,
)
    requires
        env.saved_device_id is Some,
        !env.spec_saved_is_native(Some(player.device_id@), state.devices, player.device_name@),
        forall|i: int| 0 <= i < out.len() ==> !(#[trigger] out[i] is PersistDeviceId),
    ensures
        forall|i: int|
            0 <= i < entry_effects(out, state, env, player, plan).len() ==> !(
            #[trigger] entry_effects(out, state, env, player, plan)[i] is PersistDeviceId),
        forall|i: int|
            0 <= i < fallback_effects(out, state, env, player).len() ==> !(
            #[trigger] fallback_effects(out, state, env, player)[i] is PersistDeviceId),
{
}

/// A press that finds the native player gone is not lost: the request is kept as
/// it would have been sent.
pub proof fn law_a_kept_request_is_the_one_that_was_made(
    request: PlaybackRequest,
    sent: PlaybackRequest,
)
    requires
        sent.is_trimmed_from(request),
    ensures
        sent.spec_kept().context_uri == optional_uri_of(request.context),
        request.context is None && request.uris is Some ==> sent.spec_kept().uris == Some(
            trimmed_uris(uris_of(request.uris->0@), request.offset),
        ),
        !(request.context is None && request.uris is Some) ==> sent.spec_kept()
            == request.spec_kept(),
{
    if request.context is None && request.uris is Some {
        assert(uris_of(trimmed_uris(request.uris->0@, request.offset)) =~= trimmed_uris(
            uris_of(request.uris->0@),
            request.offset,
        ));
    }
}

/// A request that was kept and is made again is sent as it was sent before, so
/// that it is recognised.
pub proof fn law_a_kept_request_is_recognised(
    request: PlaybackRequest,
    sent: PlaybackRequest,
    again: PlaybackRequest,
    sent_again: PlaybackRequest,
    state: PlaybackState,
)
    requires
        sent.is_trimmed_from(request),
        again.spec_kept() == sent.spec_kept(),
        sent_again.is_trimmed_from(again),
        state.pending_start_playback is Some,
        state.pending_start_playback->0.request@ == sent.spec_kept(),
        state.pending_start_playback->0.recovery_attempts > 0,
    ensures
        sent_again.spec_kept() == sent.spec_kept(),
        is_replay(state, sent_again),
{
    if again.context is None && again.uris is Some {
        assert(uris_of(again.uris->0@).len() == again.uris->0@.len());
        assert(uris_of(sent.uris->0@).len() == sent.uris->0@.len());
        assert(sent.uris->0@.len() <= MAX_API_PLAYBACK_URIS);
    }
}

/// A device that Spotify plays on is not taken over: where it is known, is not
/// the native one by its identifier or its name, and the native player was not
/// activated a moment ago, playback is started through the Web API.
pub proof fn law_an_external_device_is_not_taken_over(
    state: PlaybackState,
    env: PlaybackEnv,
    plan: StartPlan,
)
    requires
        state.current_playback_context is Some,
        state.current_playback_context->0.device.id is Some,
        !state.known_as_native(state.current_playback_context->0.device),
        env.player is Some ==> {
            let name = state.current_playback_context->0.device.name@;
            let native_name = env.player->0.device_name@;
            &&& unicode_lowered(name) != unicode_lowered(native_name)
            &&& !same_ignoring_ascii_case(name, native_name)
        },
        !(state.is_streaming_active && state.recently_activated(env.now)),
    ensures
        !state.starts_natively(env),
        next_after_check(state, env, plan) == StartNextView::Api(
            plain_call(ApiMethod::Put, "me/player/play"@, plan.request.spec_body()),
            ApiStage::ConnectPlay { plan },
        ),
        after_check(state, env, plan) == state,
{
}

/// A start of a context that failed on the native player and with the Web API
/// leaves nothing behind that a later recovery could start: what was kept is
/// dropped, and nothing is kept anew.
pub proof fn law_a_start_that_failed_is_not_kept(
    out: Seq<EffectView>,
    state: PlaybackState,
    env: PlaybackEnv,
    plan: StartPlan,
    device_id: String,
    error: String,
)
    ensures
        ({
            let stage = ApiStage::ContextPlay { plan, device_id };
            &&& after_api_answer(state, env, stage, Err(error)).pending_start_playback is None
            &&& api_effects(out, state, env, stage, Err(error)) == out.push(
                EffectView::HandleError(start_failure(error@)),
            )
            &&& next_after_api(env, stage, Err(error)) is Done
        }),
{
}

/// What comes next in a start is read as it is.
pub proof fn law_the_next_step_is_read_as_it_is(next: StartNext)
    ensures
        next is Done ==> next@ is Done,
        next matches StartNext::TryShuffled(native) ==> next@ == StartNextView::TryShuffled(native),
        next matches StartNext::Load(load, stage) ==> next@ == StartNextView::Load(load@, stage),
        next matches StartNext::Api(call, stage) ==> next@ == StartNextView::Api(call@, stage),
{
}

/// A request without a context and without URIs only resumes. A request is kept
/// by the URI of its context, the URIs of its items in order, and its offset.
pub proof fn law_how_a_request_is_kept(request: PlaybackRequest, resume: bool, kept: KeptRequest)
    requires
        call_ensures(PlaybackRequest::is_resume, (&request,), resume),
        call_ensures(PlaybackRequest::kept, (&request,), kept),
    ensures
        resume <==> request.context is None && request.uris is None,
        request.spec_is_resume() == resume,
        request.spec_kept() == kept@,
        kept@.context_uri is Some <==> request.context is Some,
        request.context is Some ==> kept@.context_uri == Some(request.context->0.spec_uri()),
        kept@.uris is Some <==> request.uris is Some,
        request.uris is Some ==> {
            &&& kept@.uris->0.len() == request.uris->0@.len()
            &&& forall|i: int|
                0 <= i < request.uris->0@.len() ==> #[trigger] kept@.uris->0[i]
                    == request.uris->0@[i].spec_uri()
        },
        kept@.offset == request.offset,
{
}

/// A start keeps what was asked for: only a list on its own is cut, as
/// `trim_api_playback_uris` cuts it. It is shuffled as the playback before it,
/// or as the settings have it where there is none. A new target ends the
/// shuffled order of the old one, a resume keeps it.
pub proof fn law_what_a_start_begins_with(
    state: PlaybackState,
    request: PlaybackRequest,
    out: &mut Outbox,
    r: StartPlan,
    cut: (Vec<PlayableId>, Option<usize>),
)
    requires
        call_ensures(PlaybackState::start_playback, (&state, request, out), r),
        request.uris is Some ==> call_ensures(
            trim_api_playback_uris,
            (request.uris->0, request.offset),
            cut,
        ),
    ensures
        state.current_playback_context matches Some(ctx) ==> r.shuffle == ctx.shuffle_state,
        state.current_playback_context is None ==> r.shuffle == state.shuffle_enabled,
        request.context is None && request.uris is None ==> final(out)@ == old(out)@,
        request.context is Some || request.uris is Some ==> final(out)@ == old(out)@ + seq![
            EffectView::ClearNativeShuffleSession,
        ],
        request.context is Some || request.uris is None ==> r.request == request,
        request.context is None && request.uris is Some ==> {
            &&& r.request.context is None
            &&& r.request.uris is Some
            &&& r.request.uris->0@ == cut.0@
            &&& r.request.offset == cut.1
        },
{
}

/// Native playback runs through a context where one is asked for, through a list
/// where only URIs are, and else through what it ran through before; where that
/// is not known, through a context exactly where the playback shown has one.
pub proof fn law_what_native_playback_runs_through(
    state: PlaybackState,
    request: PlaybackRequest,
    r: NativePlaybackOrigin,
)
    requires
        call_ensures(
            PlaybackState::requested_native_playback_origin,
            (&state, &request),
            r,
        ),
    ensures
        request.context is Some ==> r == NativePlaybackOrigin::Context,
        request.context is None && request.uris is Some ==> r == NativePlaybackOrigin::RawList,
        request.context is None && request.uris is None ==> {
            &&& state.native_playback_origin is Some ==> Some(r) == state.native_playback_origin
            &&& state.native_playback_origin is None ==> (r == NativePlaybackOrigin::Context
                <==> state.current_playback_context is Some
                && state.current_playback_context->0.has_context)
        },
        requested_origin(state, request) == r,
{
}

/// The Web API can start a context on the native device, and nothing else: where
/// a context is asked for and that device is known.
pub proof fn law_where_a_context_can_be_started(
    state: PlaybackState,
    request: PlaybackRequest,
    r: Option<String>,
)
    requires
        call_ensures(PlaybackState::resolve_native_playback_route, (&state, &request), r),
    ensures
        request.context is None ==> r is None,
        request.context is Some ==> r == state.native_device_id,
        context_route(state, request) == r,
{
}

/// A context is started on a device by the body of its request.
pub proof fn law_how_a_context_is_started_on_a_device(
    plan: StartPlan,
    device_id: String,
    r: StartNext,
    context: Option<&PlayContextId>,
    uris: Option<&[PlayableId]>,
    body: Option<serde_json::Value>,
)
    requires
        context is Some <==> plan.request.context is Some,
        context is Some ==> *context->0 == plan.request.context->0,
        uris is Some <==> plan.request.uris is Some,
        uris is Some ==> uris->0@ == plan.request.uris->0@,
        call_ensures(api_playback_body, (context, uris, plan.request.offset), body),
        call_ensures(start_native_context_via_api, (plan, device_id), r),
    ensures
        r@ == StartNextView::Api(
            ApiCallView {
                method: ApiMethod::Put,
                path: "me/player/play"@,
                query: seq![("device_id"@, device_id@)],
                body: crate::request::optional_json(body),
            },
            ApiStage::ContextPlay { plan, device_id },
        ),
        body is None ==> crate::request::optional_json(body) is None,
        body is Some ==> crate::request::optional_json(body) == Some(crate::json::json_of(body->0)),
{
    assert(Seq::<(Seq<char>, Seq<char>)>::empty().push(("device_id"@, device_id@)) =~= seq![
        ("device_id"@, device_id@),
    ]);
}

/// A start while the native player has to be recovered is kept as it was made,
/// and nothing else happens.
pub proof fn law_a_start_during_recovery_is_kept(
    state: &mut PlaybackState,
    env: PlaybackEnv,
    plan: StartPlan,
    out: &mut Outbox,
    r: StartNext,
    kept: KeptRequest,
)
    requires
        call_ensures(
            PlaybackState::start_after_recovery_check,
            (state, &env, plan, true, out),
            r,
        ),
        call_ensures(PlaybackRequest::kept, (&plan.request,), kept),
    ensures
        r@ is Done,
        *final(state) == *old(state),
        final(out)@ == old(out)@ + seq![EffectView::ParkStartPlayback(kept@)],
{
}

/// A start that does not go to the native player asks the Web API to play what
/// was asked for, on whatever device is active, and changes nothing yet.
pub proof fn law_a_start_elsewhere_asks_the_web_api(
    state: &mut PlaybackState,
    env: PlaybackEnv,
    plan: StartPlan,
    out: &mut Outbox,
    r: StartNext,
    backend: PlaybackBackend<'static>,
    context: Option<&PlayContextId>,
    uris: Option<&[PlayableId]>,
    body: Option<serde_json::Value>,
)
    requires
        call_ensures(PlaybackState::start_playback_backend, (&*old(state), &env), backend),
        backend is Connect,
        context is Some <==> plan.request.context is Some,
        context is Some ==> *context->0 == plan.request.context->0,
        uris is Some <==> plan.request.uris is Some,
        uris is Some ==> uris->0@ == plan.request.uris->0@,
        call_ensures(api_playback_body, (context, uris, plan.request.offset), body),
        call_ensures(
            PlaybackState::start_after_recovery_check,
            (state, &env, plan, false, out),
            r,
        ),
    ensures
        *final(state) == *old(state),
        final(out)@ == old(out)@,
        r@ == StartNextView::Api(
            ApiCallView {
                method: ApiMethod::Put,
                path: "me/player/play"@,
                query: Seq::empty(),
                body: crate::request::optional_json(body),
            },
            ApiStage::ConnectPlay { plan },
        ),
{
}

/// A start on the native player makes that the one that plays: it takes playback
/// over unless it has it or was activated within five seconds, is activated, and
/// is remembered where no other saved device stands against it. What is to play
/// is noted, or the wish to play where only a resume is asked for. It counts as
/// activated now, no attempt to wake it up is left, and its device and what it
/// runs through are known. All else in the state stays as it was, but that a
/// resume which succeeds at once is shown as playing.
pub proof fn law_what_a_native_start_does_first(
    state: &mut PlaybackState,
    env: PlaybackEnv,
    plan: StartPlan,
    out: &mut Outbox,
    r: StartNext,
    backend: PlaybackBackend<'static>,
    kept: KeptRequest,
    origin: NativePlaybackOrigin,
)
    requires
        call_ensures(PlaybackState::start_playback_backend, (&*old(state), &env), backend),
        backend is Native,
        call_ensures(PlaybackRequest::kept, (&plan.request,), kept),
        call_ensures(
            PlaybackState::requested_native_playback_origin,
            (&*old(state), &plan.request),
            origin,
        ),
        call_ensures(
            PlaybackState::start_after_recovery_check,
            (state, &env, plan, false, out),
            r,
        ),
    ensures
        ({
            let player = env.player->0;
            let resume = plan.request.context is None && plan.request.uris is None;
            let recent = old(state).last_device_activation is Some
                && env.now.nanos - old(state).last_device_activation->0.nanos < 5_000_000_000;
            let taken = if !recent
                && (old(state).native_activation_pending || !old(state).is_streaming_active) {
                seq![EffectView::Transfer]
            } else {
                Seq::empty()
            };
            let remembered = if remembers(*old(state), env, player, false) && !(
            env.saved_device_id is Some && env.saved_device_id->0@ == player.device_id@) {
                seq![EffectView::PersistDeviceId(player.device_id@)]
            } else {
                Seq::empty()
            };
            let noted = if resume {
                EffectView::SetNativePlaybackIntent(true)
            } else {
                EffectView::RecordNativePlaybackRequest {
                    request: kept@,
                    desired_playing: true,
                    shuffle: plan.shuffle,
                    repeat: match old(state).current_playback_context {
                        Some(ctx) => ctx.repeat_state,
                        None => RepeatState::Off,
                    },
                }
            };
            let known = old(state).native_track_info is Some || old(state).last_track_id is Some;
            let played = if resume && known && !plan.shuffle {
                seq![EffectView::Play]
            } else {
                Seq::empty()
            };
            &&& final(out)@ == old(out)@ + taken + seq![EffectView::Activate] + remembered + seq![
                noted,
            ] + played
            &&& final(state).is_streaming_active
            &&& !final(state).native_activation_pending
            &&& final(state).last_device_activation == Some(env.now)
            &&& final(state).native_playback_origin == Some(origin)
            &&& final(state).native_device_id == Some(player.device_id)
            &&& final(state).native_idle_recovery.player_instance
                == old(state).native_idle_recovery.player_instance
            &&& forall|later: crate::time::Moment| !(#[trigger] final(state).native_idle_recovery.phase.grants(later))
            &&& *final(state) == (PlaybackState {
                is_streaming_active: true,
                native_activation_pending: false,
                last_device_activation: final(state).last_device_activation,
                native_playback_origin: final(state).native_playback_origin,
                native_device_id: final(state).native_device_id,
                native_idle_recovery: final(state).native_idle_recovery,
                current_playback_context: if resume && known && !plan.shuffle {
                    old(state).with_playing(true).current_playback_context
                } else {
                    old(state).current_playback_context
                },
                ..*old(state)
            })
        }),
{
    let player = env.player->0;
    let mid = after_entry(*old(state), env, player, plan.request);
    assert(mid.with_playing(true).current_playback_context == old(state).with_playing(
        true,
    ).current_playback_context);
    assert(seq![EffectView::Activate] =~= Seq::<EffectView>::empty().push(EffectView::Activate));
}

/// A native start that is shuffled is first tried in an order of the program's
/// own, with the device and the name of the player. One that is not goes on at
/// once as it does where no such order was found.
pub proof fn law_how_a_native_start_goes_on(
    state: &mut PlaybackState,
    env: PlaybackEnv,
    plan: StartPlan,
    out: &mut Outbox,
    r: StartNext,
    backend: PlaybackBackend<'static>,
    native: NativeStart,
    entered: &mut PlaybackState,
    entered_out: &mut Outbox,
    next: StartNext,
)
    requires
        call_ensures(PlaybackState::start_playback_backend, (&*old(state), &env), backend),
        backend is Native,
        call_ensures(
            PlaybackState::start_after_recovery_check,
            (state, &env, plan, false, out),
            r,
        ),
        native.plan == plan,
        native.device_id == env.player->0.device_id,
        native.device_name == env.player->0.device_name,
        *old(entered) == after_entry(*old(state), env, env.player->0, plan.request),
        old(entered_out)@ == entry_effects(old(out)@, *old(state), env, env.player->0, plan),
        call_ensures(
            PlaybackState::start_after_shuffled,
            (entered, native, false, entered_out),
            next,
        ),
    ensures
        plan.shuffle ==> r@ == StartNextView::TryShuffled(native),
        !plan.shuffle
            ==> r@ == next@ && *final(state) == *final(entered) && final(out)@
                == final(entered_out)@,
{
}

/// Where the program has started a shuffled order of its own, the start is over
/// and nothing else happens.
pub proof fn law_a_shuffled_start_is_over(
    state: &mut PlaybackState,
    native: NativeStart,
    out: &mut Outbox,
    r: StartNext,
)
    requires
        call_ensures(PlaybackState::start_after_shuffled, (state, native, true, out), r),
    ensures
        r@ is Done,
        *final(state) == *old(state),
        final(out)@ == old(out)@,
{
}

/// A native resume plays at once where the native player is known to have a
/// track, which is shown; else the Web API is asked to play on the native
/// device.
pub proof fn law_how_a_native_resume_goes_on(
    state: &mut PlaybackState,
    native: NativeStart,
    out: &mut Outbox,
    r: StartNext,
)
    requires
        native.plan.request.context is None,
        native.plan.request.uris is None,
        call_ensures(PlaybackState::start_after_shuffled, (state, native, false, out), r),
    ensures
        old(state).native_track_info is Some || old(state).last_track_id is Some ==> {
            &&& r@ is Done
            &&& final(out)@ == old(out)@ + seq![EffectView::Play]
            &&& *final(state) == old(state).with_playing(true)
        },
        old(state).native_track_info is None && old(state).last_track_id is None ==> {
            &&& final(out)@ == old(out)@
            &&& *final(state) == *old(state)
            &&& r@ == StartNextView::Api(
                ApiCallView {
                    method: ApiMethod::Put,
                    path: "me/player/play"@,
                    query: seq![("device_id"@, native.device_id@)],
                    body: None,
                },
                ApiStage::NativeResume {
                    device_id: native.device_id,
                    device_name: native.device_name,
                },
            )
        },
{
    assert(Seq::<(Seq<char>, Seq<char>)>::empty().push(("device_id"@, native.device_id@)) =~= seq![
        ("device_id"@, native.device_id@),
    ]);
}

/// A native start of something is loaded by the player, as it was asked for; a
/// context can fall back to the Web API on the native device where that is
/// known. Only a request that was kept and made again, the very same one, of a
/// context on a known device goes to the Web API at once. The state stays.
pub proof fn law_how_a_native_start_of_something_goes_on(
    state: &mut PlaybackState,
    native: NativeStart,
    out: &mut Outbox,
    r: StartNext,
    kept: KeptRequest,
    load: Option<NativeLoadRequest>,
    via_api: StartNext,
)
    requires
        native.plan.request.context is Some || native.plan.request.uris is Some,
        call_ensures(PlaybackRequest::kept, (&native.plan.request,), kept),
        call_ensures(
            native_load_request,
            (
                &native.plan.request.context,
                &native.plan.request.uris,
                native.plan.request.offset,
            ),
            load,
        ),
        old(state).native_device_id is Some ==> call_ensures(
            start_native_context_via_api,
            (native.plan, old(state).native_device_id->0),
            via_api,
        ),
        call_ensures(PlaybackState::start_after_shuffled, (state, native, false, out), r),
    ensures
        *final(state) == *old(state),
        final(out)@ == old(out)@,
        ({
            let pending = old(state).pending_start_playback;
            let again = pending is Some && pending->0.recovery_attempts > 0
                && pending->0.request@.context_uri == kept@.context_uri
                && pending->0.request@.uris == kept@.uris && pending->0.request@.offset
                == kept@.offset;
            let on_device = native.plan.request.context is Some
                && old(state).native_device_id is Some;
            &&& again && on_device ==> r@ == via_api@
            &&& !again || !on_device ==> load is Some && r@ == StartNextView::Load(
                load->0@,
                LoadStage::Direct {
                    plan: native.plan,
                    fallback: if native.plan.request.context is Some {
                        old(state).native_device_id
                    } else {
                        None
                    },
                },
            )
        }),
{
}

/// What the native player has loaded is shown as playing, shuffled as planned,
/// which also becomes the setting; it is watched from now on, the player is told
/// whether to shuffle, and the request is kept. Where the load was a fallback,
/// what plays is noted too.
pub proof fn law_what_a_load_that_worked_does(
    state: &mut PlaybackState,
    env: PlaybackEnv,
    plan: StartPlan,
    stage: LoadStage,
    out: &mut Outbox,
    r: StartNext,
    kept: KeptRequest,
)
    requires
        stage matches LoadStage::Direct { plan: p, .. } ==> p == plan,
        stage matches LoadStage::Fallback { plan: p } ==> p == plan,
        call_ensures(PlaybackRequest::kept, (&plan.request,), kept),
        call_ensures(PlaybackState::start_after_load, (state, &env, stage, Ok(()), out), r),
    ensures
        r@ is Done,
        stage is Direct ==> final(out)@ == old(out)@ + seq![
            EffectView::SetShuffle(plan.shuffle),
            EffectView::ParkStartPlayback(kept@),
        ],
        stage is Fallback ==> final(out)@ == old(out)@ + seq![
            EffectView::SetShuffle(plan.shuffle),
            EffectView::RecordNativePlaybackRequest {
                request: kept@,
                desired_playing: true,
                shuffle: plan.shuffle,
                repeat: match old(state).current_playback_context {
                    Some(ctx) => ctx.repeat_state,
                    None => RepeatState::Off,
                },
            },
            EffectView::ParkStartPlayback(kept@),
        ],
        *final(state) == (PlaybackState {
            native_load_watchdog: Some(env.now),
            shuffle_enabled: plan.shuffle,
            current_playback_context: match old(state).current_playback_context {
                Some(ctx) => Some(
                    crate::items::PlaybackContext {
                        is_playing: true,
                        shuffle_state: plan.shuffle,
                        ..ctx
                    },
                ),
                None => None,
            },
            ..*old(state)
        }),
{
}

/// A load that failed changes nothing. It goes on through the Web API where it
/// can, without a word; else it is shown as an error, with what failed.
pub proof fn law_what_a_load_that_failed_does(
    state: &mut PlaybackState,
    env: PlaybackEnv,
    stage: LoadStage,
    error: String,
    out: &mut Outbox,
    r: StartNext,
    via_api: StartNext,
)
    requires
        stage matches LoadStage::Direct { plan, fallback: Some(device_id) } ==> call_ensures(
            start_native_context_via_api,
            (plan, device_id),
            via_api,
        ),
        call_ensures(PlaybackState::start_after_load, (state, &env, stage, Err(error), out), r),
    ensures
        *final(state) == *old(state),
        stage matches LoadStage::Direct { fallback: Some(_), .. } ==> {
            &&& r@ == via_api@
            &&& final(out)@ == old(out)@
        },
        !(stage matches LoadStage::Direct { fallback: Some(_), .. }) ==> {
            &&& r@ is Done
            &&& final(out)@ == old(out)@ + seq![
                EffectView::HandleError("Failed to start native playback: "@ + error@),
            ]
        },
{
}

/// A resume on the native device that the Web API has accepted is shown as
/// playing, and what plays is polled; where it was refused, it is told for four
/// seconds that there is nothing to resume on that device.
pub proof fn law_what_the_answer_to_a_resume_does(
    state: &mut PlaybackState,
    env: PlaybackEnv,
    stage: ApiStage,
    reply: Result<(), String>,
    out: &mut Outbox,
    r: StartNext,
)
    requires
        stage is NativeResume || stage is FallbackResume,
        call_ensures(PlaybackState::start_after_api, (state, &env, stage, reply, out), r),
    ensures
        r@ is Done,
        reply is Ok ==> final(out)@ == old(out)@ + seq![
            EffectView::Dispatch(IoEventView::GetCurrentPlayback),
        ],
        reply is Ok ==> (stage matches ApiStage::NativeResume { device_id, .. } ==> *final(state)
            == (PlaybackState {
            native_device_id: Some(device_id),
            ..old(state).with_playing(true)
        })),
        reply is Ok && stage is FallbackResume ==> *final(state) == old(state).with_playing(true),
        reply is Err ==> *final(state) == *old(state),
        reply is Err ==> {
            let name = match stage {
                ApiStage::NativeResume { device_name, .. } => device_name@,
                ApiStage::FallbackResume { device_name } => device_name@,
                _ => Seq::empty(),
            };
            final(out)@ == old(out)@ + seq![
                EffectView::SetStatusMessage {
                    message: "No playback to resume on "@ + name + "."@,
                    ttl_secs: 4,
                },
            ]
        },
{
}

/// A start that the Web API has accepted is shuffled as planned, on the same
/// device; nothing is shown or asked for before that.
pub proof fn law_an_accepted_start_is_shuffled(
    state: &mut PlaybackState,
    env: PlaybackEnv,
    stage: ApiStage,
    out: &mut Outbox,
    r: StartNext,
)
    requires
        stage is ContextPlay || stage is ConnectPlay,
        call_ensures(PlaybackState::start_after_api, (state, &env, stage, Ok(()), out), r),
    ensures
        *final(state) == *old(state),
        final(out)@ == old(out)@,
        stage matches ApiStage::ContextPlay { plan, device_id } ==> r@ == StartNextView::Api(
            ApiCallView {
                method: ApiMethod::Put,
                path: "me/player/shuffle"@,
                query: seq![("state"@, truth(plan.shuffle)), ("device_id"@, device_id@)],
                body: None,
            },
            ApiStage::ContextShuffle { plan },
        ),
        stage matches ApiStage::ConnectPlay { plan } ==> r@ == StartNextView::Api(
            ApiCallView {
                method: ApiMethod::Put,
                path: "me/player/shuffle"@,
                query: seq![("state"@, truth(plan.shuffle))],
                body: None,
            },
            ApiStage::ConnectShuffle { shuffle: plan.shuffle },
        ),
{
    match stage {
        ApiStage::ContextPlay { plan, device_id } => {
            assert(Seq::<(Seq<char>, Seq<char>)>::empty().push(("state"@, truth(plan.shuffle))).push(
                ("device_id"@, device_id@),
            ) =~= seq![("state"@, truth(plan.shuffle)), ("device_id"@, device_id@)]);
        },
        ApiStage::ConnectPlay { plan } => {
            assert(Seq::<(Seq<char>, Seq<char>)>::empty().push(("state"@, truth(plan.shuffle)))
                =~= seq![("state"@, truth(plan.shuffle))]);
        },
        _ => {},
    }
}

/// Once it was asked to shuffle, playback is shown as playing and shuffled as
/// planned, which also becomes the setting, whether that was accepted or not; a
/// refusal is shown as an error. A context that was started natively is also
/// watched, kept and polled soon.
pub proof fn law_what_the_end_of_a_start_does(
    state: &mut PlaybackState,
    env: PlaybackEnv,
    stage: ApiStage,
    shuffle: bool,
    reply: Result<(), String>,
    out: &mut Outbox,
    r: StartNext,
    kept: KeptRequest,
)
    requires
        env.now.nanos >= i64::MIN + 6_000_000_000,
        stage is ContextShuffle || stage is ConnectShuffle,
        stage matches ApiStage::ContextShuffle { plan } ==> {
            &&& shuffle == plan.shuffle
            &&& call_ensures(PlaybackRequest::kept, (&plan.request,), kept)
        },
        stage matches ApiStage::ConnectShuffle { shuffle: s } ==> shuffle == s,
        call_ensures(PlaybackState::start_after_api, (state, &env, stage, reply, out), r),
    ensures
        r@ is Done,
        ({
            let refused = match reply {
                Ok(_) => Seq::empty(),
                Err(error) => seq![EffectView::HandleError(error@)],
            };
            let shown = match old(state).current_playback_context {
                Some(ctx) => Some(
                    crate::items::PlaybackContext {
                        is_playing: true,
                        shuffle_state: shuffle,
                        ..ctx
                    },
                ),
                None => None,
            };
            &&& stage is ConnectShuffle ==> {
                &&& final(out)@ == old(out)@ + refused
                &&& *final(state) == (PlaybackState {
                    current_playback_context: shown,
                    shuffle_enabled: shuffle,
                    ..*old(state)
                })
            }
            &&& stage is ContextShuffle ==> {
                &&& final(out)@ == old(out)@ + refused + seq![
                    EffectView::ParkStartPlayback(kept@),
                    EffectView::Dispatch(IoEventView::GetCurrentPlayback),
                ]
                &&& final(state).instant_since_last_current_playback_poll.nanos + 6_000_000_000
                    == env.now.nanos
                &&& *final(state) == (PlaybackState {
                    current_playback_context: shown,
                    shuffle_enabled: shuffle,
                    native_load_watchdog: Some(env.now),
                    instant_since_last_current_playback_poll: final(state).instant_since_last_current_playback_poll,
                    ..*old(state)
                })
            }
        }),
{
}

/// A start of a context that the Web API has refused is dropped and shown as an
/// error; nothing else changes.
pub proof fn law_a_refused_context_is_dropped(
    state: &mut PlaybackState,
    env: PlaybackEnv,
    plan: StartPlan,
    device_id: String,
    error: String,
    out: &mut Outbox,
    r: StartNext,
)
    requires
        call_ensures(
            PlaybackState::start_after_api,
            (state, &env, ApiStage::ContextPlay { plan, device_id }, Err(error), out),
            r,
        ),
    ensures
        r@ is Done,
        *final(state) == (PlaybackState { pending_start_playback: None, ..*old(state) }),
        final(out)@ == old(out)@ + seq![
            EffectView::HandleError("Failed to start native playback: "@ + error@),
        ],
{
}

/// A start that the Web API has refused changes nothing unless the native player
/// takes it over. While one is expected, a start that failed for want of a
/// device is kept, which is told for six seconds; in any other case the refusal
/// is shown as an error.
pub proof fn law_what_a_refused_start_does(
    state: &mut PlaybackState,
    env: PlaybackEnv,
    plan: StartPlan,
    error: String,
    out: &mut Outbox,
    r: StartNext,
    kept: KeptRequest,
)
    requires
        !no_active_device(error@) || env.player is None || !env.player->0.available,
        call_ensures(PlaybackRequest::kept, (&plan.request,), kept),
        call_ensures(
            PlaybackState::start_after_api,
            (state, &env, ApiStage::ConnectPlay { plan }, Err(error), out),
            r,
        ),
    ensures
        r@ is Done,
        *final(state) == *old(state),
        no_active_device(error@) && old(state).native_backend_pending ==> final(out)@ == old(out)@
            + seq![
            EffectView::ParkStartPlayback(kept@),
            EffectView::SetStatusMessage {
                message: "Reconnecting native streaming; playback will resume."@,
                ttl_secs: 6,
            },
        ],
        !no_active_device(error@) || !old(state).native_backend_pending
            ==> final(out)@ == old(out)@ + seq![EffectView::HandleError(error@)],
{
}

/// A start that failed for want of a device goes to a native player that can
/// play: it is activated and remembered as in any native start, becomes the one
/// that plays, and is polled soon. It loads what was asked for; a resume is
/// asked of its device.
pub proof fn law_a_start_without_a_device_goes_native(
    state: &mut PlaybackState,
    env: PlaybackEnv,
    plan: StartPlan,
    error: String,
    out: &mut Outbox,
    r: StartNext,
    origin: NativePlaybackOrigin,
    load: Option<NativeLoadRequest>,
)
    requires
        env.now.nanos >= i64::MIN + 6_000_000_000,
        no_active_device(error@),
        env.player is Some,
        env.player->0.available,
        call_ensures(
            PlaybackState::requested_native_playback_origin,
            (&*old(state), &plan.request),
            origin,
        ),
        call_ensures(
            native_load_request,
            (&plan.request.context, &plan.request.uris, plan.request.offset),
            load,
        ),
        call_ensures(
            PlaybackState::start_after_api,
            (state, &env, ApiStage::ConnectPlay { plan }, Err(error), out),
            r,
        ),
    ensures
        ({
            let player = env.player->0;
            let remembered = if remembers(*old(state), env, player, false) && !(
            env.saved_device_id is Some && env.saved_device_id->0@ == player.device_id@) {
                seq![EffectView::PersistDeviceId(player.device_id@)]
            } else {
                Seq::empty()
            };
            &&& final(out)@ == old(out)@ + seq![EffectView::Activate] + remembered
            &&& load is Some ==> r@ == StartNextView::Load(load->0@, LoadStage::Fallback { plan })
            &&& load is None ==> r@ == StartNextView::Api(
                ApiCallView {
                    method: ApiMethod::Put,
                    path: "me/player/play"@,
                    query: seq![("device_id"@, player.device_id@)],
                    body: None,
                },
                ApiStage::FallbackResume { device_name: player.device_name },
            )
            &&& final(state).instant_since_last_current_playback_poll.nanos + 6_000_000_000
                == env.now.nanos
            &&& final(state).native_idle_recovery.player_instance
                == old(state).native_idle_recovery.player_instance
            &&& forall|later: crate::time::Moment| !(#[trigger] final(state).native_idle_recovery.phase.grants(later))
            &&& *final(state) == (PlaybackState {
                is_streaming_active: true,
                native_activation_pending: false,
                native_playback_origin: Some(origin),
                native_device_id: Some(player.device_id),
                last_device_activation: Some(env.now),
                instant_since_last_current_playback_poll: final(state).instant_since_last_current_playback_poll,
                native_idle_recovery: final(state).native_idle_recovery,
                ..*old(state)
            })
        }),
{
    assert(Seq::<(Seq<char>, Seq<char>)>::empty().push(("device_id"@, env.player->0.device_id@))
        =~= seq![("device_id"@, env.player->0.device_id@)]);
}

} // verus!
