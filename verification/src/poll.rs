//! What a poll of the playback in progress changes.

use crate::device::{
    stale_api_item_should_preserve_native_context, stale_without_native_player, StaleApiItemContext,
};
use crate::effects::{
    query_call, ApiCall, ApiCallView, ApiMethod, Effect, EffectView, IoEvent, IoEventView, Outbox,
};
use crate::errors::{
    after_transient, handle_transient_playback_poll_error, transient_effects, transient_kind,
};
use crate::items::{
    api_confirms_native_info_is_current, confirms_native, playable_item_id, Device, PlayableItem,
    PlaybackContext, RepeatState,
};
use crate::preference::{after_idle, idle_effects, reconcile_native_idle_device_if_preferred};
use crate::state::{as_slice, has_native_name, NativePlayer, PlaybackEnv, PlaybackState};
use crate::text::{
    contains, copy_optional_text, occurs_in, optional_text, same_text, texts, unicode_lowered,
};
use crate::time::Moment;
use vstd::prelude::*;

verus! {

/// What the program itself knows of native playback when a poll begins. The
/// Web API reports these things late.
#[derive(Clone, Copy, Debug, PartialEq, Eq, Structural)]
pub struct LocalState {
    pub volume: u8,
    pub shuffle: bool,
    pub repeat: RepeatState,
    pub native_is_playing: Option<bool>,
}

/// What the program itself knows of native playback: nothing without a player
/// that can play, or before any playback was reported.
pub open spec fn local_state(state: PlaybackState, env: PlaybackEnv) -> Option<LocalState> {
    match state.current_playback_context {
        Some(ctx) => if env.player_available() {
            Some(
                LocalState {
                    volume: env.player->0.volume,
                    shuffle: ctx.shuffle_state,
                    repeat: ctx.repeat_state,
                    native_is_playing: state.native_is_playing,
                },
            )
        } else {
            None
        },
        None => None,
    }
}

/// The instance of the player that can play.
pub open spec fn available_instance(env: PlaybackEnv) -> Option<usize> {
    if env.player_available() {
        Some(env.player->0.instance)
    } else {
        None
    }
}

/// Whether a device that Spotify reports is the native one: by its identifier
/// where both are known, else by its name while the player shows signs of life.
pub open spec fn reported_native(state: PlaybackState, env: PlaybackEnv, device: Device) -> bool {
    &&& env.player is Some
    &&& if device.id is Some && state.native_device_id is Some {
        device.id->0@ == state.native_device_id->0@
    } else {
        unicode_lowered(device.name@) == unicode_lowered(env.player->0.device_name@)
            && env.fresh_native_activity
    }
}

/// The identifier of an optional item.
pub open spec fn item_id(item: Option<PlayableItem>) -> Option<Seq<char>> {
    match item {
        Some(i) => i.spec_id(),
        None => None,
    }
}

/// Whether the reported item is the one that the native player plays.
pub open spec fn confirmed(state: PlaybackState, reported: PlaybackContext) -> bool {
    &&& state.native_track_info is Some
    &&& reported.item is Some
    &&& confirms_native(
        state.native_track_info->0.name@,
        reported.item->0,
        optional_text(state.last_track_id),
    )
}

/// What decides whether the reported item is stale.
pub open spec fn stale_context(
    state: PlaybackState,
    env: PlaybackEnv,
    reported: PlaybackContext,
) -> StaleApiItemContext {
    StaleApiItemContext {
        native_info_present: state.native_track_info is Some,
        api_item_present: reported.item is Some,
        api_confirms_native_info: confirmed(state, reported),
        native_track_id_present: state.last_track_id is Some,
        api_item_matches_native_track: item_id(reported.item) is Some && item_id(reported.item)
            == optional_text(state.last_track_id),
        native_streaming_was_active: state.is_streaming_active,
        native_activation_pending: state.native_activation_pending,
        api_device_is_native: reported_native(state, env, reported.device),
    }
}

/// Whether the reported item is older than what the native player plays.
pub open spec fn stale(state: PlaybackState, env: PlaybackEnv, reported: PlaybackContext) -> bool {
    stale_context(state, env, reported).contradicts_native() && stale_context(
        state,
        env,
        reported,
    ).native_in_charge()
}

/// The reported playback with what the program itself knows of it put in.
pub open spec fn localised(
    reported: PlaybackContext,
    native: bool,
    local: Option<LocalState>,
    shuffle_enabled: bool,
) -> PlaybackContext {
    if native {
        match local {
            Some(l) => PlaybackContext {
                device: Device { volume_percent: Some(l.volume as u32), ..reported.device },
                shuffle_state: l.shuffle,
                repeat_state: l.repeat,
                is_playing: match l.native_is_playing {
                    Some(playing) => playing,
                    None => reported.is_playing,
                },
                ..reported
            },
            None => PlaybackContext { shuffle_state: shuffle_enabled, ..reported },
        }
    } else {
        reported
    }
}

/// Whether a reported volume is the one that the user asked for.
pub open spec fn volume_caught_up(reported: Option<u32>, pending: u8) -> bool {
    reported == Some(pending as u32)
}

/// Whether a change of the volume is still under way after a report.
pub open spec fn volume_still_pending(pending: Option<u8>, reported: Option<u32>) -> bool {
    pending is Some && !volume_caught_up(reported, pending->0)
}

/// Playback with the volume as it was shown, while a change of the volume is
/// under way.
pub open spec fn with_shown_volume(
    state: PlaybackState,
    localised: PlaybackContext,
) -> PlaybackContext {
    if volume_still_pending(state.pending_volume, localised.device.volume_percent)
        && state.current_playback_context is Some {
        PlaybackContext {
            device: Device {
                volume_percent: state.current_playback_context->0.device.volume_percent,
                ..localised.device
            },
            ..localised
        }
    } else {
        localised
    }
}

/// The state after a volume was reported: a change that it shows to be done is
/// over.
pub open spec fn after_volume(state: PlaybackState, reported: Option<u32>) -> PlaybackState {
    if state.pending_volume is Some && volume_caught_up(reported, state.pending_volume->0) {
        PlaybackState { pending_volume: None, last_dispatched_volume: None, ..state }
    } else {
        state
    }
}

/// The identifier of a reported track.
pub open spec fn track_id(reported: PlaybackContext) -> Option<String> {
    match reported.item {
        Some(PlayableItem::Track { id, .. }) => id,
        _ => None,
    }
}

/// What a report of playback comes down to.
#[derive(Clone, Copy, Debug, PartialEq, Eq, Structural)]
pub struct Verdict {
    /// Whether Spotify plays on the native device.
    pub native: bool,
    /// Whether the reported item is the one that the native player plays.
    pub confirmed: bool,
    /// Whether the reported item is older than what the native player plays.
    pub stale: bool,
}

/// What a report of playback comes down to.
pub open spec fn verdict(
    state: PlaybackState,
    env: PlaybackEnv,
    reported: PlaybackContext,
) -> Verdict {
    Verdict {
        native: reported_native(state, env, reported.device),
        confirmed: confirmed(state, reported),
        stale: stale(state, env, reported),
    }
}

/// The state after a report was noted, with what is shown as it was.
pub open spec fn after_noted(
    state: PlaybackState,
    now: Moment,
    verdict: Verdict,
    reported: PlaybackContext,
) -> PlaybackState {
    PlaybackState {
        instant_since_last_current_playback_poll: now,
        native_device_id: if verdict.native && state.native_device_id is None {
            reported.device.id
        } else {
            state.native_device_id
        },
        last_track_id: if !verdict.stale && track_id(reported) is Some {
            track_id(reported)
        } else {
            state.last_track_id
        },
        ..state
    }
}

/// The state after playback was reported. A stale report leaves what is shown
/// as it was, and the native player in charge.
pub open spec fn after_verdict(
    state: PlaybackState,
    now: Moment,
    verdict: Verdict,
    local: Option<LocalState>,
    reported: PlaybackContext,
) -> PlaybackState {
    let ctx = localised(reported, verdict.native, local, state.shuffle_enabled);
    PlaybackState {
        current_playback_context: if verdict.stale {
            state.current_playback_context
        } else {
            Some(with_shown_volume(state, ctx))
        },
        is_streaming_active: verdict.stale || verdict.native,
        native_activation_pending: state.native_activation_pending && !verdict.stale
            && !verdict.native,
        native_track_info: if !verdict.stale && (!verdict.native || verdict.confirmed) {
            None
        } else {
            state.native_track_info
        },
        ..after_volume(after_noted(state, now, verdict, reported), ctx.device.volume_percent)
    }
}

/// The state after playback was reported.
pub open spec fn after_report(
    state: PlaybackState,
    env: PlaybackEnv,
    local: Option<LocalState>,
    reported: PlaybackContext,
) -> PlaybackState {
    after_verdict(state, env.now, verdict(state, env, reported), local, reported)
}

/// The effects of a reported track: one other than the last is counted and
/// looked up.
pub open spec fn track_effects(
    out: Seq<EffectView>,
    state: PlaybackState,
    reported: PlaybackContext,
) -> Seq<EffectView> {
    if track_id(reported) is Some && optional_text(state.last_track_id) != optional_text(
        track_id(reported),
    ) {
        let counted = if state.enable_global_song_count {
            out.push(EffectView::Dispatch(IoEventView::IncrementGlobalSongCount))
        } else {
            out
        };
        counted.push(
            EffectView::Dispatch(
                IoEventView::CurrentUserSavedTracksContains(seq![track_id(reported)->0@]),
            ),
        )
    } else {
        out
    }
}

/// The effects of a report of playback: its track is noted unless it is stale,
/// and a native player that was not known yet is told whether to shuffle.
pub open spec fn verdict_effects(
    out: Seq<EffectView>,
    state: PlaybackState,
    verdict: Verdict,
    local: Option<LocalState>,
    reported: PlaybackContext,
) -> Seq<EffectView> {
    let noted = if verdict.stale {
        out
    } else {
        track_effects(out, state, reported)
    };
    if local is None && verdict.native {
        noted.push(EffectView::SetShuffle(state.shuffle_enabled))
    } else {
        noted
    }
}

/// The effects of a report of playback.
pub open spec fn report_effects(
    out: Seq<EffectView>,
    state: PlaybackState,
    env: PlaybackEnv,
    local: Option<LocalState>,
    reported: PlaybackContext,
) -> Seq<EffectView> {
    verdict_effects(out, state, verdict(state, env, reported), local, reported)
}

/// Whether a failure says that there is no player or device.
pub open spec fn says_not_found(error: Seq<char>) -> bool {
    occurs_in(error, "404"@) || occurs_in(error, "Not Found"@)
}

/// The state after a poll told that nothing plays.
pub open spec fn after_idle_poll(state: PlaybackState, env: PlaybackEnv) -> PlaybackState {
    let offered = match env.player {
        Some(player) => after_idle(state, env, player),
        None => state,
    };
    PlaybackState {
        instant_since_last_current_playback_poll: env.now,
        is_fetching_current_playback: false,
        ..offered
    }
}

/// The effects of a poll that told that nothing plays.
pub open spec fn idle_poll_effects(
    out: Seq<EffectView>,
    state: PlaybackState,
    env: PlaybackEnv,
) -> Seq<EffectView> {
    match env.player {
        Some(player) => idle_effects(out, state, env, player),
        None => out,
    }
}

/// The state after a poll.
pub open spec fn after_poll(
    state: PlaybackState,
    env: PlaybackEnv,
    local: Option<LocalState>,
    reply: Result<Option<PlaybackContext>, String>,
) -> PlaybackState {
    match reply {
        Ok(Some(reported)) => PlaybackState {
            seek_ms: None,
            is_fetching_current_playback: false,
            ..after_report(state, env, local, reported)
        },
        Ok(None) => PlaybackState { seek_ms: None, ..after_idle_poll(state, env) },
        Err(error) => after_failed_poll(state, env, error@, unicode_lowered(error@)),
    }
}

/// The effects of a poll.
pub open spec fn poll_effects(
    out: Seq<EffectView>,
    state: PlaybackState,
    env: PlaybackEnv,
    local: Option<LocalState>,
    reply: Result<Option<PlaybackContext>, String>,
) -> Seq<EffectView> {
    match reply {
        Ok(Some(reported)) => report_effects(out, state, env, local, reported),
        Ok(None) => idle_poll_effects(out, state, env),
        Err(error) => failed_poll_effects(out, state, env, error@, unicode_lowered(error@)),
    }
}

/// The state after a poll that failed; `lowered` is the failure in lower case.
/// A failure that passes only schedules the next poll, and one that tells of no
/// player means that nothing plays.
pub open spec fn after_failed_poll(
    state: PlaybackState,
    env: PlaybackEnv,
    error: Seq<char>,
    lowered: Seq<char>,
) -> PlaybackState {
    let kind = transient_kind(error, lowered);
    let idle = PlaybackState { is_fetching_current_playback: false, ..state };
    if kind is Some {
        after_transient(idle, kind, env.now)
    } else if says_not_found(error) {
        after_idle_poll(PlaybackState { current_playback_context: None, ..idle }, env)
    } else {
        idle
    }
}

/// The effects of a poll that failed; `lowered` is the failure in lower case.
pub open spec fn failed_poll_effects(
    out: Seq<EffectView>,
    state: PlaybackState,
    env: PlaybackEnv,
    error: Seq<char>,
    lowered: Seq<char>,
) -> Seq<EffectView> {
    let kind = transient_kind(error, lowered);
    if kind is Some {
        transient_effects(out, kind).push(
            EffectView::ShowStatusMessage {
                message: kind->0.spec_message(),
                ttl_secs: kind->0.spec_ttl_secs(),
            },
        )
    } else if says_not_found(error) {
        idle_poll_effects(
            out,
            PlaybackState {
                current_playback_context: None,
                is_fetching_current_playback: false,
                ..state
            },
            env,
        )
    } else {
        out.push(EffectView::HandleError(error))
    }
}

/// Whether the reported item is older than what is shown, where no native player
/// is built in.
pub open spec fn stale_without_player(state: PlaybackState, reported: PlaybackContext) -> bool {
    state.native_track_info is Some && reported.item is Some && !confirmed(state, reported)
}

/// The state after a poll, where no native player is built in. What another
/// player says of its track is never dropped.
pub open spec fn after_poll_without_native_player(
    state: PlaybackState,
    now: Moment,
    reply: Result<Option<PlaybackContext>, String>,
) -> PlaybackState {
    match reply {
        Ok(Some(reported)) => PlaybackState {
            instant_since_last_current_playback_poll: now,
            last_track_id: if !stale_without_player(state, reported) && track_id(reported) is Some {
                track_id(reported)
            } else {
                state.last_track_id
            },
            current_playback_context: if stale_without_player(state, reported) {
                state.current_playback_context
            } else {
                Some(with_shown_volume(state, reported))
            },
            seek_ms: None,
            is_fetching_current_playback: false,
            ..after_volume(state, reported.device.volume_percent)
        },
        _ => after_poll(state, PlaybackEnv::spec_without_player(now), None, reply),
    }
}

/// The effects of a poll, where no native player is built in.
pub open spec fn poll_effects_without_native_player(
    out: Seq<EffectView>,
    state: PlaybackState,
    now: Moment,
    reply: Result<Option<PlaybackContext>, String>,
) -> Seq<EffectView> {
    match reply {
        Ok(Some(reported)) => if stale_without_player(state, reported) {
            out
        } else {
            track_effects(out, state, reported)
        },
        _ => poll_effects(out, state, PlaybackEnv::spec_without_player(now), None, reply),
    }
}

/// The request that polls the playback in progress.
pub open spec fn poll_call() -> ApiCallView {
    query_call(ApiMethod::Get, "me/player"@, "additional_types"@, "episode,track"@, None)
}

fn is_reported_native(state: &PlaybackState, env: &PlaybackEnv, device: &Device) -> (r: bool)
    ensures
        r == reported_native(*state, *env, *device),
{
    match &env.player {
        Some(player) => match (&device.id, &state.native_device_id) {
            (Some(current), Some(native)) => same_text(current.as_str(), native.as_str()),
            _ => has_native_name(device, player) && env.fresh_native_activity,
        },
        None => false,
    }
}

fn is_confirmed(state: &PlaybackState, reported: &PlaybackContext) -> (r: bool)
    ensures
        r == confirmed(*state, *reported),
{
    match (&state.native_track_info, &reported.item) {
        (Some(info), Some(item)) => api_confirms_native_info_is_current(
            info.name.as_str(),
            item,
            as_slice(&state.last_track_id),
        ),
        _ => false,
    }
}

fn is_stale(state: &PlaybackState, env: &PlaybackEnv, reported: &PlaybackContext) -> (r: bool)
    ensures
        r == stale(*state, *env, *reported),
{
    let item_matches = match &reported.item {
        Some(item) => match (playable_item_id(item), &state.last_track_id) {
            (Some(api_id), Some(last)) => same_text(api_id.as_str(), last.as_str()),
            _ => false,
        },
        None => false,
    };
    stale_api_item_should_preserve_native_context(
        StaleApiItemContext {
            native_info_present: state.native_track_info.is_some(),
            api_item_present: reported.item.is_some(),
            api_confirms_native_info: is_confirmed(state, reported),
            native_track_id_present: state.last_track_id.is_some(),
            api_item_matches_native_track: item_matches,
            native_streaming_was_active: state.is_streaming_active,
            native_activation_pending: state.native_activation_pending,
            api_device_is_native: is_reported_native(state, env, &reported.device),
        },
    )
}

fn localise(
    reported: PlaybackContext,
    native: bool,
    local: Option<LocalState>,
    shuffle_enabled: bool,
) -> (r: PlaybackContext)
    ensures
        r == localised(reported, native, local, shuffle_enabled),
{
    let mut ctx = reported;
    if native {
        match local {
            Some(l) => {
                ctx.device.volume_percent = Some(l.volume as u32);
                ctx.shuffle_state = l.shuffle;
                ctx.repeat_state = l.repeat;
                if let Some(playing) = l.native_is_playing {
                    ctx.is_playing = playing;
                }
            },
            None => {
                ctx.shuffle_state = shuffle_enabled;
            },
        }
    }
    ctx
}

fn has_caught_up(reported: Option<u32>, pending: u8) -> (r: bool)
    ensures
        r == volume_caught_up(reported, pending),
{
    match reported {
        Some(volume) => volume == pending as u32,
        None => false,
    }
}

impl PlaybackState {
    /// Begins a poll: notes which native player is there, and returns what the
    /// program itself knows of native playback, with the request to make.
    pub fn get_current_playback(&mut self, env: &PlaybackEnv) -> (r: (Option<LocalState>, ApiCall))
        ensures
            *final(self) == (PlaybackState {
                native_idle_recovery: old(self).native_idle_recovery.observing(
                    available_instance(*env),
                ),
                ..*old(self)
            }),
            r.0 == local_state(*old(self), *env),
            r.1@ == poll_call(),
    {
        let player: Option<&NativePlayer> = match &env.player {
            Some(player) => if player.available {
                Some(player)
            } else {
                None
            },
            None => None,
        };
        let instance: Option<usize> = match player {
            Some(p) => Some(p.instance),
            None => None,
        };
        self.native_idle_recovery.observe_player_instance(instance);
        let local = match (player, &self.current_playback_context) {
            (Some(p), Some(ctx)) => Some(
                LocalState {
                    volume: p.volume,
                    shuffle: ctx.shuffle_state,
                    repeat: ctx.repeat_state,
                    native_is_playing: self.native_is_playing,
                },
            ),
            _ => None,
        };
        let call = ApiCall::new(ApiMethod::Get, "me/player", None).with(
            "additional_types",
            "episode,track".to_string(),
        );
        (local, call)
    }

    /// Notes the reported track: one other than the last is counted and looked
    /// up.
    fn note_track(&mut self, reported: &PlaybackContext, out: &mut Outbox)
        ensures
            *final(self) == (PlaybackState {
                last_track_id: if track_id(*reported) is Some {
                    track_id(*reported)
                } else {
                    old(self).last_track_id
                },
                ..*old(self)
            }),
            final(out)@ == track_effects(old(out)@, *old(self), *reported),
    {
        if let Some(PlayableItem::Track { id: Some(id), .. }) = &reported.item {
            let is_new = match &self.last_track_id {
                Some(last) => !same_text(last.as_str(), id.as_str()),
                None => true,
            };
            if is_new {
                if self.enable_global_song_count {
                    out.push(Effect::Dispatch(IoEvent::IncrementGlobalSongCount));
                }
                let mut ids: Vec<String> = Vec::new();
                ids.push(id.clone());
                assert(texts(ids@) =~= seq![id@]);
                out.push(Effect::Dispatch(IoEvent::CurrentUserSavedTracksContains(ids)));
            }
            self.last_track_id = Some(id.clone());
        }
    }

    /// Ends a change of the volume that the report shows to be done. Until then
    /// the volume stays as it was shown.
    fn settle_volume(&mut self, localised: PlaybackContext) -> (r: PlaybackContext)
        ensures
            *final(self) == after_volume(*old(self), localised.device.volume_percent),
            r == with_shown_volume(*old(self), localised),
    {
        let mut ctx = localised;
        if let Some(pending) = self.pending_volume {
            if has_caught_up(ctx.device.volume_percent, pending) {
                self.pending_volume = None;
                self.last_dispatched_volume = None;
            } else if let Some(old_ctx) = &self.current_playback_context {
                ctx.device.volume_percent = old_ctx.device.volume_percent;
            }
        }
        ctx
    }

    /// What a report of playback comes down to.
    pub fn judge_report(&self, env: &PlaybackEnv, reported: &PlaybackContext) -> (r: Verdict)
        ensures
            r == verdict(*self, *env, *reported),
    {
        Verdict {
            native: is_reported_native(self, env, &reported.device),
            confirmed: is_confirmed(self, reported),
            stale: is_stale(self, env, reported),
        }
    }

    /// Takes a report of playback that comes down to `verdict`: keeps what the
    /// program knows better, lets the rest be shown, and leaves what is shown
    /// as it was where the report is stale.
    pub fn apply_report(
        &mut self,
        now: Moment,
        verdict: Verdict,
        local: Option<LocalState>,
        reported: PlaybackContext,
        out: &mut Outbox,
    )
        ensures
            *final(self) == after_verdict(*old(self), now, verdict, local, reported),
            final(out)@ == verdict_effects(old(out)@, *old(self), verdict, local, reported),
    {
        self.note_report(now, verdict, local, &reported, out);
        let ghost noted = *self;
        let ctx = localise(reported, verdict.native, local, self.shuffle_enabled);
        self.show_report(verdict, ctx);
        assert(with_shown_volume(noted, ctx) == with_shown_volume(*old(self), ctx));
    }

    /// Notes what a report of playback tells beside what is shown: when it came,
    /// which device is the native one, and which track plays.
    fn note_report(
        &mut self,
        now: Moment,
        verdict: Verdict,
        local: Option<LocalState>,
        reported: &PlaybackContext,
        out: &mut Outbox,
    )
        ensures
            *final(self) == after_noted(*old(self), now, verdict, *reported),
            final(out)@ == verdict_effects(old(out)@, *old(self), verdict, local, *reported),
    {
        self.instant_since_last_current_playback_poll = now;
        if verdict.native && self.native_device_id.is_none() {
            self.native_device_id = copy_optional_text(&reported.device.id);
        }
        if !verdict.stale {
            self.note_track(reported, out);
        }
        if verdict.native && local.is_none() {
            out.push(Effect::SetShuffle(self.shuffle_enabled));
        }
    }

    /// Lets reported playback be shown, unless it is stale, and settles who is
    /// in charge.
    fn show_report(&mut self, verdict: Verdict, localised: PlaybackContext)
        ensures
            *final(self) == (PlaybackState {
                current_playback_context: if verdict.stale {
                    old(self).current_playback_context
                } else {
                    Some(with_shown_volume(*old(self), localised))
                },
                is_streaming_active: verdict.stale || verdict.native,
                native_activation_pending: old(self).native_activation_pending && !verdict.stale
                    && !verdict.native,
                native_track_info: if !verdict.stale && (!verdict.native || verdict.confirmed) {
                    None
                } else {
                    old(self).native_track_info
                },
                ..after_volume(*old(self), localised.device.volume_percent)
            }),
    {
        let ctx = self.settle_volume(localised);
        self.is_streaming_active = verdict.stale || verdict.native;
        self.native_activation_pending = self.native_activation_pending && !verdict.stale
            && !verdict.native;
        if !verdict.stale {
            self.current_playback_context = Some(ctx);
            if !verdict.native || verdict.confirmed {
                self.native_track_info = None;
            }
        }
    }

    fn nothing_playing(&mut self, env: &PlaybackEnv, out: &mut Outbox)
        ensures
            *final(self) == after_idle_poll(*old(self), *env),
            final(out)@ == idle_poll_effects(old(out)@, *old(self), *env),
    {
        if let Some(player) = &env.player {
            reconcile_native_idle_device_if_preferred(self, env, player, out);
        }
        self.instant_since_last_current_playback_poll = env.now;
        self.is_fetching_current_playback = false;
    }

    /// Takes a failure of a poll.
    pub fn playback_poll_failed(&mut self, env: &PlaybackEnv, err_text: &str, out: &mut Outbox)
        ensures
            *final(self) == after_failed_poll(
                *old(self),
                *env,
                err_text@,
                unicode_lowered(err_text@),
            ),
            final(out)@ == failed_poll_effects(
                old(out)@,
                *old(self),
                *env,
                err_text@,
                unicode_lowered(err_text@),
            ),
    {
        self.is_fetching_current_playback = false;
        if let Some((message, ttl_secs)) = handle_transient_playback_poll_error(
            self,
            out,
            err_text,
            env.now,
        ) {
            out.push(Effect::ShowStatusMessage { message: message.to_string(), ttl_secs });
            return ;
        }
        if contains(err_text, "404") || contains(err_text, "Not Found") {
            self.current_playback_context = None;
            self.nothing_playing(env, out);
            return ;
        }
        out.error(err_text);
    }

    /// Takes the answer to a poll: a report of playback, the news that nothing
    /// plays, or a failure.
    pub fn playback_polled(
        &mut self,
        env: &PlaybackEnv,
        local: Option<LocalState>,
        reply: Result<Option<PlaybackContext>, String>,
        out: &mut Outbox,
    )
        ensures
            *final(self) == after_poll(*old(self), *env, local, reply),
            final(out)@ == poll_effects(old(out)@, *old(self), *env, local, reply),
    {
        match reply {
            Ok(Some(reported)) => {
                let verdict = self.judge_report(env, &reported);
                self.apply_report(env.now, verdict, local, reported, out);
                self.seek_ms = None;
                self.is_fetching_current_playback = false;
            },
            Ok(None) => {
                self.nothing_playing(env, out);
                self.seek_ms = None;
            },
            Err(error) => {
                self.playback_poll_failed(env, error.as_str(), out);
            },
        }
    }
}

impl PlaybackState {
    /// Takes the answer to a poll, where no native player is built in.
    pub fn playback_polled_without_native_player(
        &mut self,
        now: Moment,
        reply: Result<Option<PlaybackContext>, String>,
        out: &mut Outbox,
    )
        ensures
            *final(self) == after_poll_without_native_player(*old(self), now, reply),
            final(out)@ == poll_effects_without_native_player(old(out)@, *old(self), now, reply),
    {
        match reply {
            Ok(Some(reported)) => {
                let stale = stale_without_native_player(
                    self.native_track_info.is_some(),
                    reported.item.is_some(),
                    is_confirmed(self, &reported),
                );
                self.instant_since_last_current_playback_poll = now;
                if !stale {
                    self.note_track(&reported, out);
                }
                let ghost noted = *self;
                let ctx = self.settle_volume(reported);
                assert(with_shown_volume(noted, reported) == with_shown_volume(
                    *old(self),
                    reported,
                ));
                if !stale {
                    self.current_playback_context = Some(ctx);
                }
                self.seek_ms = None;
                self.is_fetching_current_playback = false;
            },
            _ => {
                self.playback_polled(&PlaybackEnv::without_player(now), None, reply, out);
            },
        }
    }
}

/// A stale report leaves what is shown, the last track and what the native
/// player says of its track as they were, and the native player in charge.
pub proof fn law_a_stale_report_changes_nothing_shown(
    state: PlaybackState,
    env: PlaybackEnv,
    local: Option<LocalState>,
    reported: PlaybackContext,
)
    requires
        stale(state, env, reported),
    ensures
        ({
            let after = after_poll(state, env, local, Ok(Some(reported)));
            &&& after.current_playback_context == state.current_playback_context
            &&& after.last_track_id == state.last_track_id
            &&& after.native_track_info == state.native_track_info
            &&& after.is_streaming_active
        }),
{
}

/// What the native player says of its track is dropped only when the Web API
/// has confirmed it, or when playback has left the native device.
pub proof fn law_native_metadata_is_authoritative(
    state: PlaybackState,
    env: PlaybackEnv,
    local: Option<LocalState>,
    reported: PlaybackContext,
)
    requires
        state.native_track_info is Some,
        after_poll(state, env, local, Ok(Some(reported))).native_track_info is None,
    ensures
        confirmed(state, reported) || !reported_native(state, env, reported.device),
{
}

/// While a change of the volume is under way, the volume stays as it was shown;
/// it ends exactly when the volume to show is the one that was asked for.
pub proof fn law_a_volume_change_is_shown_until_it_is_done(
    state: PlaybackState,
    env: PlaybackEnv,
    local: Option<LocalState>,
    reported: PlaybackContext,
)
    requires
        state.pending_volume is Some,
        state.current_playback_context is Some,
        !stale(state, env, reported),
    ensures
        ({
            let after = after_poll(state, env, local, Ok(Some(reported)));
            let volume = after.current_playback_context->0.device.volume_percent;
            &&& after.pending_volume is None ==> volume_caught_up(volume, state.pending_volume->0)
            &&& after.pending_volume is Some ==> after.pending_volume == state.pending_volume
                && volume == state.current_playback_context->0.device.volume_percent
        }),
{
}

/// A failure that passes, or that tells of no player, never takes the screen: no
/// error is shown, and the next poll is scheduled. One that passes also leaves
/// what is shown as it was.
pub proof fn law_a_passing_failure_shows_no_error(
    out: Seq<EffectView>,
    state: PlaybackState,
    env: PlaybackEnv,
    error: Seq<char>,
    lowered: Seq<char>,
)
    requires
        transient_kind(error, lowered) is Some || says_not_found(error),
    ensures
        ({
            let effects = failed_poll_effects(out, state, env, error, lowered);
            &&& effects.len() >= out.len()
            &&& forall|i: int|
                out.len() <= i < effects.len() ==> !(#[trigger] effects[i] is HandleError)
        }),
        ({
            let after = after_failed_poll(state, env, error, lowered);
            &&& after.instant_since_last_current_playback_poll == env.now
            &&& transient_kind(error, lowered) is Some ==> after.current_playback_context
                == state.current_playback_context
        }),
{
}

/// Who plays is read from every report that is not stale: a choice that Spotify
/// does not confirm does not outlast it.
pub proof fn law_a_report_tells_who_plays(
    state: PlaybackState,
    env: PlaybackEnv,
    local: Option<LocalState>,
    reported: PlaybackContext,
)
    requires
        !stale(state, env, reported),
    ensures
        after_poll(state, env, local, Ok(Some(reported))).is_streaming_active == reported_native(
            state,
            env,
            reported.device,
        ),
{
}

/// What the program itself knows of native playback outlasts a report, which
/// tells of it late: shuffling, repeating and playing stay as they are known,
/// and so does the volume unless a change of it is under way.
pub proof fn law_a_native_report_keeps_what_is_known(
    state: PlaybackState,
    env: PlaybackEnv,
    local: LocalState,
    reported: PlaybackContext,
)
    requires
        reported_native(state, env, reported.device),
        !stale(state, env, reported),
    ensures
        ({
            let after = after_poll(state, env, Some(local), Ok(Some(reported)));
            let ctx = after.current_playback_context->0;
            &&& after.current_playback_context is Some
            &&& ctx.shuffle_state == local.shuffle
            &&& ctx.repeat_state == local.repeat
            &&& local.native_is_playing is Some ==> ctx.is_playing == local.native_is_playing->0
            &&& state.pending_volume is None ==> ctx.device.volume_percent == Some(
                local.volume as u32,
            )
        }),
{
}

/// A poll asks for what plays, tracks and episodes alike. It takes down what is
/// known of native playback, where there is a player that can play and playback
/// was reported before: the volume of the player, and what is shown of the rest.
/// It notes which player can play, and changes nothing else.
pub proof fn law_what_a_poll_asks_for(
    state: &mut PlaybackState,
    env: PlaybackEnv,
    r: (Option<LocalState>, ApiCall),
)
    requires
        call_ensures(PlaybackState::get_current_playback, (state, &env), r),
    ensures
        r.1@.method == ApiMethod::Get,
        r.1@.path == "me/player"@,
        r.1@.query == seq![("additional_types"@, "episode,track"@)],
        r.1@.body is None,
        env.player is None || !env.player->0.available ==> {
            &&& r.0 is None
            &&& final(state).native_idle_recovery.player_instance is None
        },
        old(state).current_playback_context is None ==> r.0 is None,
        env.player is Some && env.player->0.available ==> {
            &&& final(state).native_idle_recovery.player_instance == Some(env.player->0.instance)
            &&& old(state).current_playback_context matches Some(ctx) ==> r.0 == Some(
                LocalState {
                    volume: env.player->0.volume,
                    shuffle: ctx.shuffle_state,
                    repeat: ctx.repeat_state,
                    native_is_playing: old(state).native_is_playing,
                },
            )
        },
        final(state).native_idle_recovery.player_instance
            == old(state).native_idle_recovery.player_instance ==> *final(state) == *old(state),
        final(state).native_idle_recovery.player_instance
            != old(state).native_idle_recovery.player_instance
                ==> final(state).native_idle_recovery.phase is Armed,
        (PlaybackState {
            native_idle_recovery: old(state).native_idle_recovery,
            ..*final(state)
        }) == *old(state),
{
}

/// A report is of the native device by its identifier where both identifiers are
/// known, else by its name while the player gives signs of life; without a
/// player it never is. It is confirmed where its item has the name that the
/// native player reports, or the identifier of the last track.
pub proof fn law_what_a_report_is_taken_for(
    state: PlaybackState,
    env: PlaybackEnv,
    reported: PlaybackContext,
    r: Verdict,
)
    requires
        call_ensures(PlaybackState::judge_report, (&state, &env, &reported), r),
    ensures
        env.player is None ==> !r.native,
        env.player is Some && reported.device.id is Some && state.native_device_id is Some
            ==> r.native == (reported.device.id->0@ == state.native_device_id->0@),
        env.player is Some && (reported.device.id is None || state.native_device_id is None)
            ==> r.native == (env.fresh_native_activity && unicode_lowered(reported.device.name@)
            == unicode_lowered(env.player->0.device_name@)),
        state.native_track_info is None || reported.item is None ==> !r.confirmed,
        state.native_track_info is Some && reported.item is Some ==> (r.confirmed <==> {
            let item = reported.item->0;
            ||| item.spec_name() == Some(state.native_track_info->0.name@)
            ||| item.spec_id() is Some && state.last_track_id is Some && item.spec_id()->0
                == state.last_track_id->0@
        }),
{
}

/// A report is stale exactly where it has an item that is not confirmed, while
/// the native player says what it plays or the last track is known and is
/// another one, and while the native player is active, about to be, or the
/// device of the report.
pub proof fn law_which_report_is_stale(
    state: PlaybackState,
    env: PlaybackEnv,
    reported: PlaybackContext,
    r: Verdict,
)
    requires
        call_ensures(PlaybackState::judge_report, (&state, &env, &reported), r),
    ensures
        reported.item is None ==> !r.stale,
        r.confirmed ==> !r.stale,
        !state.is_streaming_active && !state.native_activation_pending && !r.native ==> !r.stale,
        state.native_track_info is None && state.last_track_id is None ==> !r.stale,
        state.native_track_info is None && state.last_track_id is Some && reported.item is Some
            && reported.item->0.spec_id() == Some(state.last_track_id->0@) ==> !r.stale,
        reported.item is Some && !r.confirmed && (state.is_streaming_active
            || state.native_activation_pending || r.native) && (state.native_track_info is Some || (
        state.last_track_id is Some && reported.item->0.spec_id() != Some(
            state.last_track_id->0@,
        ))) ==> r.stale,
{
}

/// What is shown after a report. A stale one leaves what is shown. One of
/// another device is shown as it came, in every field. One of the native device
/// is shown with the volume, the shuffling, the repeating and the playing that
/// are known of it, or with the shuffling of the settings where nothing is known
/// yet; the rest as it came. Only while a change of the volume is under way that
/// the report does not show does the volume stay as it was shown.
pub proof fn law_what_a_report_shows(
    state: &mut PlaybackState,
    env: PlaybackEnv,
    local: Option<LocalState>,
    reported: PlaybackContext,
    out: &mut Outbox,
    v: Verdict,
)
    requires
        call_ensures(PlaybackState::judge_report, (&*old(state), &env, &reported), v),
        call_ensures(
            PlaybackState::playback_polled,
            (state, &env, local, Ok(Some(reported)), out),
            (),
        ),
    ensures
        v.stale ==> final(state).current_playback_context == old(state).current_playback_context,
        !v.stale && !v.native && old(state).pending_volume is None
            ==> final(state).current_playback_context == Some(reported),
        !v.stale ==> {
            let shown = final(state).current_playback_context->0;
            &&& final(state).current_playback_context is Some
            &&& shown.item == reported.item
            &&& shown.has_context == reported.has_context
            &&& shown.progress_ms == reported.progress_ms
            &&& shown.device.id == reported.device.id
            &&& shown.device.name == reported.device.name
            &&& !v.native ==> {
                &&& shown.is_playing == reported.is_playing
                &&& shown.shuffle_state == reported.shuffle_state
                &&& shown.repeat_state == reported.repeat_state
            }
            &&& v.native && local is None ==> {
                &&& shown.is_playing == reported.is_playing
                &&& shown.shuffle_state == old(state).shuffle_enabled
                &&& shown.repeat_state == reported.repeat_state
            }
            &&& v.native && local is Some ==> {
                &&& shown.shuffle_state == local->0.shuffle
                &&& shown.repeat_state == local->0.repeat
                &&& local->0.native_is_playing is Some ==> shown.is_playing
                    == local->0.native_is_playing->0
                &&& local->0.native_is_playing is None ==> shown.is_playing == reported.is_playing
            }
        },
        !v.stale ==> {
            let told = if v.native && local is Some {
                Some(local->0.volume as u32)
            } else {
                reported.device.volume_percent
            };
            let volume = final(state).current_playback_context->0.device.volume_percent;
            &&& old(state).pending_volume is None ==> volume == told
            &&& old(state).pending_volume is Some && told == Some(
                old(state).pending_volume->0 as u32,
            ) ==> volume == told
            &&& old(state).current_playback_context is None ==> volume == told
            &&& old(state).pending_volume is Some && told != Some(
                old(state).pending_volume->0 as u32,
            ) && old(state).current_playback_context is Some
                ==> volume == old(state).current_playback_context->0.device.volume_percent
        },
{
}

/// A change of the volume ends exactly with a report of the volume that was
/// asked for; until then it is kept in mind. On the native device the volume of
/// the player counts where it is known.
pub proof fn law_when_a_report_ends_a_volume_change(
    state: &mut PlaybackState,
    env: PlaybackEnv,
    local: Option<LocalState>,
    reported: PlaybackContext,
    out: &mut Outbox,
    v: Verdict,
)
    requires
        call_ensures(PlaybackState::judge_report, (&*old(state), &env, &reported), v),
        call_ensures(
            PlaybackState::playback_polled,
            (state, &env, local, Ok(Some(reported)), out),
            (),
        ),
    ensures
        ({
            let told = if v.native && local is Some {
                Some(local->0.volume as u32)
            } else {
                reported.device.volume_percent
            };
            let reached = old(state).pending_volume is Some && told == Some(
                old(state).pending_volume->0 as u32,
            );
            &&& reached
                ==> final(state).pending_volume is None
                    && final(state).last_dispatched_volume is None
            &&& !reached
                ==> final(state).pending_volume
                    == old(state).pending_volume && final(state).last_dispatched_volume
                        == old(state).last_dispatched_volume
        }),
{
}

/// What else a report changes: the poll counts as made now and is over, and a
/// position that was being sought is dropped. The native player is in charge
/// where the device is native or the report is stale, and then no activation is
/// pending any more. The native identifier is learned from a native report while
/// it is unknown. The last track is the reported one unless that is stale or
/// none. What the native player says of its track is dropped where the report is
/// not stale and is confirmed or of another device. All else stays.
pub proof fn law_what_else_a_report_changes(
    state: &mut PlaybackState,
    env: PlaybackEnv,
    local: Option<LocalState>,
    reported: PlaybackContext,
    out: &mut Outbox,
    v: Verdict,
)
    requires
        call_ensures(PlaybackState::judge_report, (&*old(state), &env, &reported), v),
        call_ensures(
            PlaybackState::playback_polled,
            (state, &env, local, Ok(Some(reported)), out),
            (),
        ),
    ensures
        final(state).instant_since_last_current_playback_poll == env.now,
        final(state).seek_ms is None,
        !final(state).is_fetching_current_playback,
        v.stale ==> final(state).is_streaming_active,
        !v.stale ==> final(state).is_streaming_active == v.native,
        v.stale || v.native ==> !final(state).native_activation_pending,
        !v.stale && !v.native
            ==> final(state).native_activation_pending == old(state).native_activation_pending,
        v.native && old(state).native_device_id is None ==> final(state).native_device_id
            == reported.device.id,
        !v.native || old(state).native_device_id is Some
            ==> final(state).native_device_id == old(state).native_device_id,
        v.stale ==> final(state).last_track_id == old(state).last_track_id,
        !v.stale ==> (reported.item matches Some(PlayableItem::Track { id: Some(id), .. })
            ==> final(state).last_track_id == Some(id)),
        !(reported.item matches Some(PlayableItem::Track { id: Some(_), .. }))
            ==> final(state).last_track_id == old(state).last_track_id,
        v.stale || (v.native && !v.confirmed)
            ==> final(state).native_track_info == old(state).native_track_info,
        !v.stale && (!v.native || v.confirmed) ==> final(state).native_track_info is None,
        ({
            let before = *old(state);
            let after = *final(state);
            after == (PlaybackState {
                current_playback_context: after.current_playback_context,
                is_streaming_active: after.is_streaming_active,
                native_activation_pending: after.native_activation_pending,
                native_device_id: after.native_device_id,
                native_track_info: after.native_track_info,
                last_track_id: after.last_track_id,
                instant_since_last_current_playback_poll:
                    after.instant_since_last_current_playback_poll,
                is_fetching_current_playback: after.is_fetching_current_playback,
                pending_volume: after.pending_volume,
                last_dispatched_volume: after.last_dispatched_volume,
                seek_ms: after.seek_ms,
                ..before
            })
        }),
{
}

/// What a report asks for: a track other than the last one is looked up, and
/// counted first where the settings say so, unless the report is stale. Then a
/// native player of which nothing was known is told whether to shuffle. Nothing
/// else is asked for.
pub proof fn law_what_a_report_asks_for(
    state: &mut PlaybackState,
    env: PlaybackEnv,
    local: Option<LocalState>,
    reported: PlaybackContext,
    out: &mut Outbox,
    v: Verdict,
)
    requires
        call_ensures(PlaybackState::judge_report, (&*old(state), &env, &reported), v),
        call_ensures(
            PlaybackState::playback_polled,
            (state, &env, local, Ok(Some(reported)), out),
            (),
        ),
    ensures
        ({
            let id = match reported.item {
                Some(PlayableItem::Track { id, .. }) => id,
                _ => None,
            };
            let is_new = id is Some
                && (old(state).last_track_id is None || old(state).last_track_id->0@ != id->0@);
            let looked_up = EffectView::Dispatch(
                IoEventView::CurrentUserSavedTracksContains(seq![id->0@]),
            );
            let counted = EffectView::Dispatch(IoEventView::IncrementGlobalSongCount);
            let noted = if v.stale || !is_new {
                Seq::empty()
            } else if old(state).enable_global_song_count {
                seq![counted, looked_up]
            } else {
                seq![looked_up]
            };
            let shuffled = if v.native && local is None {
                seq![EffectView::SetShuffle(old(state).shuffle_enabled)]
            } else {
                Seq::empty()
            };
            final(out)@ == old(out)@ + noted + shuffled
        }),
{
}

/// Where nothing plays, an idle player is offered if there is one. Beyond that
/// the poll counts as made now and is over, and a position that was being sought
/// is dropped; what is shown stays.
pub proof fn law_what_a_poll_of_nothing_does(
    state: &mut PlaybackState,
    env: PlaybackEnv,
    local: Option<LocalState>,
    out: &mut Outbox,
    offered: &mut PlaybackState,
    asked: &mut Outbox,
)
    requires
        call_ensures(PlaybackState::playback_polled, (state, &env, local, Ok(None), out), ()),
        *old(offered) == *old(state),
        old(asked)@ == old(out)@,
        env.player is Some ==> call_ensures(
            reconcile_native_idle_device_if_preferred,
            (offered, &env, &env.player->0, asked),
            (),
        ),
        env.player is None ==> *final(offered) == *old(offered) && final(asked)@ == old(asked)@,
    ensures
        final(out)@ == final(asked)@,
        *final(state) == (PlaybackState {
            instant_since_last_current_playback_poll: env.now,
            is_fetching_current_playback: false,
            seek_ms: None,
            ..*final(offered)
        }),
        final(state).current_playback_context == old(state).current_playback_context,
{
}

/// A failure of a poll that passes is told, and what it does is all that
/// happens beside that the poll is over. One that tells of no player (`404` or
/// `Not Found`) means that nothing plays: nothing is shown any more, and an idle
/// player is offered. Any other failure is shown as an error.
pub proof fn law_what_a_failed_poll_does(
    state: &mut PlaybackState,
    env: PlaybackEnv,
    local: Option<LocalState>,
    error: String,
    text: &str,
    out: &mut Outbox,
    passing: &mut PlaybackState,
    passing_out: &mut Outbox,
    told: Option<(&'static str, u64)>,
    offered: &mut PlaybackState,
    asked: &mut Outbox,
)
    requires
        call_ensures(PlaybackState::playback_polled, (state, &env, local, Err(error), out), ()),
        text@ == error@,
        *old(passing) == *old(state),
        old(passing_out)@ == old(out)@,
        call_ensures(
            handle_transient_playback_poll_error,
            (passing, passing_out, text, env.now),
            told,
        ),
        *old(offered) == (PlaybackState {
            current_playback_context: None,
            is_fetching_current_playback: false,
            ..*old(state)
        }),
        old(asked)@ == old(out)@,
        env.player is Some ==> call_ensures(
            reconcile_native_idle_device_if_preferred,
            (offered, &env, &env.player->0, asked),
            (),
        ),
        env.player is None ==> *final(offered) == *old(offered) && final(asked)@ == old(asked)@,
    ensures
        told matches Some((message, ttl_secs)) ==> {
            &&& *final(state) == (PlaybackState {
                is_fetching_current_playback: false,
                ..*final(passing)
            })
            &&& final(out)@ == final(passing_out)@ + seq![
                EffectView::ShowStatusMessage { message: message@, ttl_secs },
            ]
        },
        told is None && (occurs_in(error@, "404"@) || occurs_in(error@, "Not Found"@)) ==> {
            &&& *final(state) == (PlaybackState {
                instant_since_last_current_playback_poll: env.now,
                ..*final(offered)
            })
            &&& final(out)@ == final(asked)@
        },
        told is None && !occurs_in(error@, "404"@) && !occurs_in(error@, "Not Found"@) ==> {
            &&& *final(state) == (PlaybackState {
                is_fetching_current_playback: false,
                ..*old(state)
            })
            &&& final(out)@ == old(out)@ + seq![EffectView::HandleError(error@)]
        },
{
}

/// The parts of a poll are the poll: a report is judged and applied, a failure is
/// taken as a failure.
pub proof fn law_a_poll_is_its_parts(
    state: &mut PlaybackState,
    env: PlaybackEnv,
    local: Option<LocalState>,
    reported: PlaybackContext,
    out: &mut Outbox,
    v: Verdict,
    applied: &mut PlaybackState,
    applied_out: &mut Outbox,
    failing: &mut PlaybackState,
    failing_out: &mut Outbox,
    failed: &mut PlaybackState,
    failed_out: &mut Outbox,
    error: String,
    text: &str,
)
    requires
        call_ensures(PlaybackState::judge_report, (&*old(state), &env, &reported), v),
        call_ensures(
            PlaybackState::playback_polled,
            (state, &env, local, Ok(Some(reported)), out),
            (),
        ),
        *old(applied) == *old(state),
        old(applied_out)@ == old(out)@,
        call_ensures(
            PlaybackState::apply_report,
            (applied, env.now, v, local, reported, applied_out),
            (),
        ),
        text@ == error@,
        *old(failing) == *old(failed),
        old(failing_out)@ == old(failed_out)@,
        call_ensures(
            PlaybackState::playback_polled,
            (failing, &env, local, Err(error), failing_out),
            (),
        ),
        call_ensures(PlaybackState::playback_poll_failed, (failed, &env, text, failed_out), ()),
    ensures
        final(out)@ == final(applied_out)@,
        *final(state) == (PlaybackState {
            seek_ms: None,
            is_fetching_current_playback: false,
            ..*final(applied)
        }),
        *final(failing) == *final(failed),
        final(failing_out)@ == final(failed_out)@,
{
}

/// Without a native player built in, a report that is not stale is shown as it
/// came, but for the volume while a change of it is under way; it is stale where
/// another player tells of its track, which the item of the report does not
/// confirm. What that player tells is never dropped. All else is as in a poll
/// without a player.
pub proof fn law_what_a_poll_does_without_native_player(
    state: &mut PlaybackState,
    env: PlaybackEnv,
    now: Moment,
    reported: PlaybackContext,
    out: &mut Outbox,
    v: Verdict,
)
    requires
        call_ensures(PlaybackState::judge_report, (&*old(state), &env, &reported), v),
        call_ensures(
            PlaybackState::playback_polled_without_native_player,
            (state, now, Ok(Some(reported)), out),
            (),
        ),
    ensures
        ({
            let stale = old(state).native_track_info is Some && reported.item is Some
                && !v.confirmed;
            let id = match reported.item {
                Some(PlayableItem::Track { id, .. }) => id,
                _ => None,
            };
            let is_new = id is Some
                && (old(state).last_track_id is None || old(state).last_track_id->0@ != id->0@);
            let pending = old(state).pending_volume;
            let reached = pending is Some && reported.device.volume_percent == Some(
                pending->0 as u32,
            );
            &&& stale
                ==> final(state).current_playback_context == old(state).current_playback_context
            &&& !stale
                && (pending is None || reached || old(state).current_playback_context is None)
                    ==> final(state).current_playback_context == Some(
                reported,
            )
            &&& !stale && pending is Some && !reached
                ==> (old(state).current_playback_context matches Some(shown)
                    ==> final(state).current_playback_context == Some(
                PlaybackContext {
                    device: Device {
                        volume_percent: shown.device.volume_percent,
                        ..reported.device
                    },
                    ..reported
                },
            ))
            &&& final(out)@ == old(out)@ + (if stale || !is_new {
                Seq::empty()
            } else if old(state).enable_global_song_count {
                seq![
                    EffectView::Dispatch(IoEventView::IncrementGlobalSongCount),
                    EffectView::Dispatch(
                        IoEventView::CurrentUserSavedTracksContains(seq![id->0@]),
                    ),
                ]
            } else {
                seq![
                    EffectView::Dispatch(
                        IoEventView::CurrentUserSavedTracksContains(seq![id->0@]),
                    ),
                ]
            })
            &&& *final(state) == (PlaybackState {
                current_playback_context: final(state).current_playback_context,
                last_track_id: if stale || id is None {
                    old(state).last_track_id
                } else {
                    id
                },
                instant_since_last_current_playback_poll: now,
                is_fetching_current_playback: false,
                seek_ms: None,
                pending_volume: if reached {
                    None
                } else {
                    pending
                },
                last_dispatched_volume: if reached {
                    None
                } else {
                    old(state).last_dispatched_volume
                },
                ..*old(state)
            })
        }),
{
}

/// Without a native player built in, a poll of nothing and a failed poll do what
/// they do where there is no player.
pub proof fn law_other_polls_without_native_player(
    state: &mut PlaybackState,
    now: Moment,
    reply: Result<Option<PlaybackContext>, String>,
    out: &mut Outbox,
    env: PlaybackEnv,
    local: Option<LocalState>,
    polled: &mut PlaybackState,
    polled_out: &mut Outbox,
)
    requires
        !(reply matches Ok(Some(_))),
        env.now == now,
        env.player is None,
        *old(polled) == *old(state),
        old(polled_out)@ == old(out)@,
        call_ensures(
            PlaybackState::playback_polled_without_native_player,
            (state, now, reply, out),
            (),
        ),
        call_ensures(
            PlaybackState::playback_polled,
            (polled, &env, local, reply, polled_out),
            (),
        ),
    ensures
        *final(state) == *final(polled),
        final(out)@ == final(polled_out)@,
{
}

/// What plays on another device is shown as it was reported, in every field,
/// where the report is not stale and no change of the volume is under way.
pub proof fn law_another_device_is_shown_as_reported(
    state: PlaybackState,
    env: PlaybackEnv,
    local: Option<LocalState>,
    reported: PlaybackContext,
)
    requires
        !stale(state, env, reported),
        !reported_native(state, env, reported.device),
        state.pending_volume is None,
    ensures
        after_poll(state, env, local, Ok(Some(reported))).current_playback_context == Some(
            reported,
        ),
{
}

} // verus!
