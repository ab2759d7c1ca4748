//! How playback moves to another device.

use crate::device::{
    lists_id, lists_name, spotify_payload_confirms_native_device, DevicePayload,
    NativeDevicePreferenceUpdate,
};
use crate::effects::{
    optional_call, plain_call, ApiCall, ApiCallView, ApiMethod, Effect, EffectView, Outbox,
    PluginDataKind,
};
use crate::json::{json_bool, json_list, json_object, json_of, json_set, text_list, Json};
use crate::preference::{persist_effects, persist_native_device_id_if_needed, remembers};
use crate::state::{
    as_slice, selected, NativePlayer, PlaybackBackend, PlaybackEnv, PlaybackState,
    POLL_BACKDATE_SECS,
};
use crate::text::{optional_text, texts};
use crate::time::Moment;
use serde_json::Value;
use vstd::prelude::*;

verus! {

/// How often the list of devices is asked for after a device was selected.
pub const DEVICE_POLLS: u8 = 2;

/// The milliseconds before each time the list of devices is asked for.
pub const DEVICE_POLL_DELAY_MS: u64 = 200;

/// The clock has not come far enough for the last poll to be dated back.
#[derive(Clone, Copy, Debug, PartialEq, Eq, Structural)]
pub struct TooEarly;

/// The body of a request to move playback to a device.
pub open spec fn transfer_json(device_id: Seq<char>) -> Json {
    Json::Object(
        Map::<Seq<char>, Json>::empty().insert("device_ids"@, text_list(seq![device_id])).insert(
            "play"@,
            Json::Bool(true),
        ),
    )
}

fn transfer_body(device_id: &str) -> (r: Value)
    ensures
        json_of(r) == transfer_json(device_id@),
{
    let mut ids: Vec<String> = Vec::new();
    ids.push(device_id.to_string());
    assert(texts(ids@) =~= seq![device_id@]);
    let mut body = json_object();
    json_set(&mut body, "device_ids", json_list(ids));
    json_set(&mut body, "play", json_bool(true));
    body
}

/// The state after playback was moved to the native player. What is known of
/// the playback before is dropped, so that commands follow the choice until the
/// next poll.
pub open spec fn after_native_transfer(
    state: PlaybackState,
    env: PlaybackEnv,
    player: NativePlayer,
) -> PlaybackState {
    PlaybackState {
        is_streaming_active: true,
        native_activation_pending: true,
        native_playback_origin: None,
        native_device_id: Some(player.device_id),
        current_playback_context: None,
        last_device_activation: Some(env.now),
        instant_since_last_current_playback_poll: env.spec_backdated_poll(),
        native_idle_recovery: state.native_idle_recovery.settled(env.now),
        ..state
    }
}

/// The state after playback was moved to another device than the native one.
pub open spec fn after_moved_away(state: PlaybackState) -> PlaybackState {
    PlaybackState {
        current_playback_context: None,
        is_streaming_active: false,
        native_playback_origin: None,
        ..state
    }
}

/// The native player to which playback is moved, where the device is its own.
pub open spec fn transfer_target(
    state: PlaybackState,
    env: PlaybackEnv,
    device_id: Seq<char>,
) -> Option<NativePlayer> {
    selected(state.is_native_target(env, device_id), env.player)
}

/// The effects of moving playback: a shuffled order of the program's own ends,
/// and the native player takes over where the device is its own.
pub open spec fn transfer_effects(
    out: Seq<EffectView>,
    state: PlaybackState,
    env: PlaybackEnv,
    device_id: Seq<char>,
    persist_device_id: bool,
) -> Seq<EffectView> {
    let cleared = out.push(EffectView::ClearNativeShuffleSession);
    match transfer_target(state, env, device_id) {
        Some(player) => persist_effects(
            cleared.push(EffectView::Transfer).push(EffectView::Activate),
            optional_text(env.saved_device_id),
            player.device_id@,
            remembers(state, env, player, persist_device_id),
        ),
        None => cleared,
    }
}

/// Whether a selected player has to take playback over: not where it has it or
/// is about to, and not right after it was activated.
pub open spec fn selection_transfers(state: PlaybackState, env: PlaybackEnv) -> bool {
    !state.native_activation_pending && !state.is_streaming_active && !state.recently_activated(
        env.now,
    )
}

/// The effects of beginning to select the native device: the player takes
/// playback over where it has to, and is activated.
pub open spec fn selection_effects(
    out: Seq<EffectView>,
    state: PlaybackState,
    env: PlaybackEnv,
) -> Seq<EffectView> {
    if env.player is None {
        out
    } else if selection_transfers(state, env) {
        out.push(EffectView::Transfer).push(EffectView::Activate)
    } else {
        out.push(EffectView::Activate)
    }
}

/// The selection of the native device, under way.
#[derive(Debug, PartialEq, Eq)]
pub struct DeviceSelection {
    pub device_id: String,
    pub device_name: String,
    pub activated_at: Moment,
    pub update: NativeDevicePreferenceUpdate,
    /// How often the list of devices is still asked for.
    pub polls_left: u8,
    /// The milliseconds to wait before each time it is asked for.
    pub poll_delay_ms: u64,
}

impl DeviceSelection {
    /// Whether the device of this selection is remembered.
    pub open spec fn spec_persists(self) -> bool {
        self.update == NativeDevicePreferenceUpdate::Persist
    }
}

/// The state while the native device is being selected.
pub open spec fn while_selecting(state: PlaybackState, env: PlaybackEnv) -> PlaybackState {
    PlaybackState {
        is_streaming_active: true,
        native_activation_pending: true,
        last_device_activation: Some(env.now),
        instant_since_last_current_playback_poll: env.spec_backdated_poll(),
        ..state
    }
}

/// The state once the native device was selected.
pub open spec fn after_selected(
    state: PlaybackState,
    selection: DeviceSelection,
) -> PlaybackState {
    PlaybackState {
        is_streaming_active: true,
        native_activation_pending: false,
        native_device_id: Some(selection.device_id),
        last_device_activation: Some(selection.activated_at),
        instant_since_last_current_playback_poll: Moment {
            nanos: (selection.activated_at.nanos - 6_000_000_000) as i64,
        },
        native_idle_recovery: state.native_idle_recovery.settled(selection.activated_at),
        ..state
    }
}

/// Whether a list of devices is of use after a selection: it holds the native
/// device, or one of the name that was asked for.
pub open spec fn shows_selected(payload: DevicePayload, selection: DeviceSelection) -> bool {
    lists_id(payload.devices@, selection.device_id@) || lists_name(
        payload.devices@,
        selection.device_name@,
    )
}

/// The selection that is still under way after an answer to the question for
/// devices: none where the native device is listed, or after the last question.
pub open spec fn selection_after(
    selection: DeviceSelection,
    reply: Option<DevicePayload>,
) -> Option<DeviceSelection> {
    if reply is Some && lists_id(reply->0.devices@, selection.device_id@) {
        None
    } else if selection.polls_left <= 1 {
        None
    } else {
        Some(DeviceSelection { polls_left: (selection.polls_left - 1) as u8, ..selection })
    }
}

/// The request for the list of devices.
pub open spec fn devices_call() -> ApiCallView {
    plain_call(ApiMethod::Get, "me/player/devices"@, None)
}

impl PlaybackState {
    /// Moves playback to a device. The call to make is returned unless the
    /// device is that of the native player. A move to the native player dates
    /// the last poll back, so the clock must have come far enough.
    pub fn transfert_playback_to_device(
        &mut self,
        env: &PlaybackEnv,
        device_id: &str,
        persist_device_id: bool,
        out: &mut Outbox,
    ) -> (r: Option<ApiCall>)
        requires
            transfer_target(*old(self), *env, device_id@) is Some ==> env.can_backdate(),
        ensures
            *final(self) == (match transfer_target(*old(self), *env, device_id@) {
                Some(player) => after_native_transfer(*old(self), *env, player),
                None => *old(self),
            }),
            final(out)@ == transfer_effects(
                old(out)@,
                *old(self),
                *env,
                device_id@,
                persist_device_id,
            ),
            optional_call(r) == (match transfer_target(*old(self), *env, device_id@) {
                Some(_) => None,
                None => Some(
                    plain_call(ApiMethod::Put, "me/player"@, Some(transfer_json(device_id@))),
                ),
            }),
    {
        out.push(Effect::ClearNativeShuffleSession);
        match self.transfer_playback_backend(env, device_id) {
            PlaybackBackend::Native(player) => {
                let update = self.preference_update(env, player, persist_device_id);
                out.push(Effect::Transfer);
                out.push(Effect::Activate);
                persist_native_device_id_if_needed(
                    as_slice(&env.saved_device_id),
                    out,
                    player.device_id.as_str(),
                    update,
                );
                self.native_idle_recovery.settle_current_episode(env.now);
                self.is_streaming_active = true;
                self.native_activation_pending = true;
                self.native_playback_origin = None;
                self.native_device_id = Some(player.device_id.clone());
                self.current_playback_context = None;
                self.last_device_activation = Some(env.now);
                self.instant_since_last_current_playback_poll = env.backdated_poll();
                None
            },
            PlaybackBackend::Connect => Some(
                ApiCall::new(ApiMethod::Put, "me/player", Some(transfer_body(device_id))),
            ),
        }
    }

    /// Moves playback to a device, at any moment. Where a move to the native
    /// player would date the last poll back too far, nothing happens.
    pub fn try_transfert_playback_to_device(
        &mut self,
        env: &PlaybackEnv,
        device_id: &str,
        persist_device_id: bool,
        out: &mut Outbox,
    ) -> (r: Result<Option<ApiCall>, TooEarly>)
        ensures
            ({
                let target = transfer_target(*old(self), *env, device_id@);
                let too_early = target is Some && !env.can_backdate();
                &&& r is Err <==> too_early
                &&& *final(self) == (match target {
                    Some(player) => if too_early {
                        *old(self)
                    } else {
                        after_native_transfer(*old(self), *env, player)
                    },
                    None => *old(self),
                })
                &&& final(out)@ == (if too_early {
                    old(out)@
                } else {
                    transfer_effects(
                        old(out)@,
                        *old(self),
                        *env,
                        device_id@,
                        persist_device_id,
                    )
                })
                &&& r matches Ok(call) ==> optional_call(call) == (match target {
                    Some(_) => None,
                    None => Some(
                        plain_call(ApiMethod::Put, "me/player"@, Some(transfer_json(device_id@))),
                    ),
                })
            }),
    {
        if let PlaybackBackend::Native(_) = self.transfer_playback_backend(env, device_id) {
            if env.now.nanos < i64::MIN + 6_000_000_000 {
                return Err(TooEarly);
            }
        }
        Ok(self.transfert_playback_to_device(env, device_id, persist_device_id, out))
    }

    /// Takes the answer to a request to move playback away from the native
    /// player.
    pub fn transfer_answered(
        &mut self,
        device_id: &str,
        persist_device_id: bool,
        reply: Result<(), String>,
        out: &mut Outbox,
    )
        ensures
            *final(self) == (if reply is Ok {
                after_moved_away(*old(self))
            } else {
                *old(self)
            }),
            final(out)@ == (match reply {
                Ok(_) => (if persist_device_id {
                    old(out)@.push(EffectView::PersistDeviceId(device_id@))
                } else {
                    old(out)@
                }).push(EffectView::ClearNativePlaybackRecovery),
                Err(error) => old(out)@.push(EffectView::HandleError(error@)),
            }),
    {
        match reply {
            Ok(_) => {
                if persist_device_id {
                    out.push(Effect::PersistDeviceId(device_id.to_string()));
                }
                self.current_playback_context = None;
                self.is_streaming_active = false;
                self.native_playback_origin = None;
                out.push(Effect::ClearNativePlaybackRecovery);
            },
            Err(error) => {
                out.error(error.as_str());
            },
        }
    }

    /// Begins to select the native device: the choice counts from now on. Once
    /// the player was activated, `streaming_device_activated` goes on. Without a
    /// player nothing happens.
    pub fn auto_select_streaming_device(
        &mut self,
        env: &PlaybackEnv,
        device_name: String,
        persist_device_id: bool,
        out: &mut Outbox,
    ) -> (r: Option<DeviceSelection>)
        requires
            env.player is Some ==> env.can_backdate(),
        ensures
            *final(self) == (if env.player is Some {
                while_selecting(*old(self), *env)
            } else {
                *old(self)
            }),
            final(out)@ == selection_effects(old(out)@, *old(self), *env),
            r is Some <==> env.player is Some,
            r matches Some(selection) ==> {
                &&& selection.device_id == env.player->0.device_id
                &&& selection.device_name == device_name
                &&& selection.activated_at == env.now
                &&& selection.spec_persists() == remembers(
                    *old(self),
                    *env,
                    env.player->0,
                    persist_device_id,
                )
                &&& selection.polls_left == DEVICE_POLLS
                &&& selection.poll_delay_ms == DEVICE_POLL_DELAY_MS
            },
    {
        match &env.player {
            Some(player) => {
                let selection = DeviceSelection {
                    device_id: player.device_id.clone(),
                    device_name,
                    activated_at: env.now,
                    update: self.preference_update(env, player, persist_device_id),
                    polls_left: DEVICE_POLLS,
                    poll_delay_ms: DEVICE_POLL_DELAY_MS,
                };
                if !self.native_activation_pending && !self.is_streaming_active
                    && !self.is_recently_activated(env.now) {
                    out.push(Effect::Transfer);
                }
                out.push(Effect::Activate);
                self.is_streaming_active = true;
                self.native_activation_pending = true;
                self.last_device_activation = Some(env.now);
                self.instant_since_last_current_playback_poll = env.backdated_poll();
                Some(selection)
            },
            None => None,
        }
    }

    /// Goes on with a selection once the player was activated. The call to make
    /// is returned: it asks for the list of devices, first and as long as a
    /// selection is under way, each time after the delay of the selection.
    pub fn streaming_device_activated(
        &mut self,
        env: &PlaybackEnv,
        selection: &DeviceSelection,
        out: &mut Outbox,
    ) -> (r: ApiCall)
        requires
            selection.activated_at.nanos >= i64::MIN + 6_000_000_000,
        ensures
            *final(self) == after_selected(*old(self), *selection),
            final(out)@ == persist_effects(
                old(out)@,
                optional_text(env.saved_device_id),
                selection.device_id@,
                selection.spec_persists(),
            ),
            r@ == devices_call(),
    {
        self.native_idle_recovery.settle_current_episode(selection.activated_at);
        self.is_streaming_active = true;
        self.native_activation_pending = false;
        self.native_device_id = Some(selection.device_id.clone());
        self.last_device_activation = Some(selection.activated_at);
        self.instant_since_last_current_playback_poll = selection.activated_at.before(
            POLL_BACKDATE_SECS,
        );
        persist_native_device_id_if_needed(
            as_slice(&env.saved_device_id),
            out,
            selection.device_id.as_str(),
            selection.update,
        );
        ApiCall::new(ApiMethod::Get, "me/player/devices", None)
    }

    /// Takes an answer to the question for devices after a selection: a list
    /// that shows the selected device is kept. Returns the selection where the
    /// question is to be asked again.
    pub fn selected_devices_polled(
        &mut self,
        selection: DeviceSelection,
        reply: Option<DevicePayload>,
        out: &mut Outbox,
    ) -> (r: Option<DeviceSelection>)
        ensures
            *final(self) == (if reply is Some && shows_selected(reply->0, selection) {
                PlaybackState { devices: reply, ..*old(self) }
            } else {
                *old(self)
            }),
            final(out)@ == (if reply is Some && shows_selected(reply->0, selection) {
                old(out)@.push(EffectView::BumpPluginData(PluginDataKind::Devices))
            } else {
                old(out)@
            }),
            r == selection_after(selection, reply),
    {
        let mut confirmed = false;
        if let Some(payload) = reply {
            confirmed =
            spotify_payload_confirms_native_device(&payload, selection.device_id.as_str());
            let name_seen = payload.lists_name(selection.device_name.as_str());
            if confirmed || name_seen {
                self.devices = Some(payload);
                out.push(Effect::BumpPluginData(PluginDataKind::Devices));
            }
        }
        if confirmed || selection.polls_left <= 1 {
            return None;
        }
        let mut rest = selection;
        rest.polls_left = rest.polls_left - 1;
        Some(rest)
    }
}

/// How often the list of devices is asked for at most, from a selection on.
pub open spec fn questions(
    selection: Option<DeviceSelection>,
    replies: Seq<Option<DevicePayload>>,
) -> nat
    decreases replies.len(),
{
    if selection is None || replies.len() == 0 {
        0
    } else {
        1 + questions(selection_after(selection->0, replies[0]), replies.drop_first())
    }
}

/// Whatever Spotify answers, the list of devices is asked for no more often than
/// a selection has questions left; for a new one, that is twice.
pub proof fn law_devices_are_asked_for_a_bounded_number_of_times(
    selection: DeviceSelection,
    replies: Seq<Option<DevicePayload>>,
)
    requires
        selection.polls_left >= 1,
    ensures
        questions(Some(selection), replies) <= selection.polls_left,
    decreases replies.len(),
{
    if replies.len() > 0 {
        reveal_with_fuel(questions, 2);
        let next = selection_after(selection, replies[0]);
        if next is Some {
            law_devices_are_asked_for_a_bounded_number_of_times(next->0, replies.drop_first());
        }
    }
}

/// Every question for devices comes after the delay of the selection: an answer
/// that leaves the selection under way leaves the delay as it is.
pub proof fn law_every_question_for_devices_waits(
    selection: DeviceSelection,
    reply: Option<DevicePayload>,
)
    ensures
        selection_after(selection, reply) matches Some(rest) ==> rest.poll_delay_ms
            == selection.poll_delay_ms,
{
}

/// Playback that was moved to the native player stays with it until the next
/// poll: commands go there while it can play.
pub proof fn law_a_native_transfer_is_followed(
    state: PlaybackState,
    env: PlaybackEnv,
    player: NativePlayer,
    later: PlaybackEnv,
)
    requires
        later.player_available(),
    ensures
        after_native_transfer(state, env, player).native_is_active(later),
{
}

/// Playback that was moved away from the native player stays away until the next
/// poll: no command goes to the native player.
pub proof fn law_a_transfer_away_is_followed(state: PlaybackState, later: PlaybackEnv)
    ensures
        !after_moved_away(state).native_is_active(later),
{
}

/// A transfer to the native player makes that the one that plays until the next
/// poll, which comes soon: it takes playback over and is activated, is
/// remembered where that is asked for or no other saved device stands against
/// it, and nothing is shown or known of what it runs through. Nothing else in
/// the state changes.
pub proof fn law_what_a_transfer_to_the_native_player_does(
    state: &mut PlaybackState,
    env: PlaybackEnv,
    device_id: &str,
    persist: bool,
    out: &mut Outbox,
    r: Option<ApiCall>,
    backend: PlaybackBackend<'static>,
)
    requires
        env.now.nanos >= i64::MIN + 6_000_000_000,
        call_ensures(
            PlaybackState::transfer_playback_backend,
            (&*old(state), &env, device_id),
            backend,
        ),
        backend is Native,
        call_ensures(
            PlaybackState::transfert_playback_to_device,
            (state, &env, device_id, persist, out),
            r,
        ),
    ensures
        r is None,
        ({
            let player = env.player->0;
            let remembered = if remembers(*old(state), env, player, persist) && !(
            env.saved_device_id is Some && env.saved_device_id->0@ == player.device_id@) {
                seq![EffectView::PersistDeviceId(player.device_id@)]
            } else {
                Seq::empty()
            };
            final(out)@ == old(out)@ + seq![
                EffectView::ClearNativeShuffleSession,
                EffectView::Transfer,
                EffectView::Activate,
            ] + remembered
        }),
        final(state).instant_since_last_current_playback_poll.nanos + 6_000_000_000
            == env.now.nanos,
        final(state).native_idle_recovery.player_instance
            == old(state).native_idle_recovery.player_instance,
        forall|later: Moment|
            !(#[trigger] final(state).native_idle_recovery.phase.grants(later)),
        *final(state) == (PlaybackState {
            is_streaming_active: true,
            native_activation_pending: true,
            native_playback_origin: None,
            native_device_id: Some(env.player->0.device_id),
            current_playback_context: None,
            last_device_activation: Some(env.now),
            instant_since_last_current_playback_poll:
                final(state).instant_since_last_current_playback_poll,
            native_idle_recovery: final(state).native_idle_recovery,
            ..*old(state)
        }),
{
}

/// A transfer to another device asks the Web API to play on that device, and on
/// no other, and changes nothing yet. Once accepted, nothing is shown, the
/// native player is out, and the device is remembered where that is asked for;
/// a refusal is shown as an error and changes nothing.
pub proof fn law_what_a_transfer_elsewhere_does(
    state: &mut PlaybackState,
    env: PlaybackEnv,
    device_id: &str,
    persist: bool,
    out: &mut Outbox,
    r: Option<ApiCall>,
    backend: PlaybackBackend<'static>,
    reply: Result<(), String>,
    answered: &mut PlaybackState,
    answered_out: &mut Outbox,
)
    requires
        call_ensures(
            PlaybackState::transfer_playback_backend,
            (&*old(state), &env, device_id),
            backend,
        ),
        backend is Connect,
        call_ensures(
            PlaybackState::transfert_playback_to_device,
            (state, &env, device_id, persist, out),
            r,
        ),
        call_ensures(
            PlaybackState::transfer_answered,
            (answered, device_id, persist, reply, answered_out),
            (),
        ),
    ensures
        *final(state) == *old(state),
        final(out)@ == old(out)@ + seq![EffectView::ClearNativeShuffleSession],
        r is Some,
        r->0@.method == ApiMethod::Put,
        r->0@.path == "me/player"@,
        r->0@.query.len() == 0,
        r->0@.body is Some,
        r->0@.body->0 is Object,
        ({
            let members = r->0@.body->0->Object_0;
            &&& members.dom() =~= set!["device_ids"@, "play"@]
            &&& members["device_ids"@] == Json::List(seq![Json::Text(device_id@)])
            &&& members["play"@] == Json::Bool(true)
        }),
        reply is Ok ==> {
            &&& *final(answered) == (PlaybackState {
                current_playback_context: None,
                is_streaming_active: false,
                native_playback_origin: None,
                ..*old(answered)
            })
            &&& persist ==> final(answered_out)@ == old(answered_out)@ + seq![
                EffectView::PersistDeviceId(device_id@),
                EffectView::ClearNativePlaybackRecovery,
            ]
            &&& !persist ==> final(answered_out)@ == old(answered_out)@ + seq![
                EffectView::ClearNativePlaybackRecovery,
            ]
        },
        reply matches Err(error) ==> {
            &&& *final(answered) == *old(answered)
            &&& final(answered_out)@ == old(answered_out)@ + seq![EffectView::HandleError(error@)]
        },
{
    reveal_strlit("device_ids");
    reveal_strlit("play");
    assert("device_ids"@.len() != "play"@.len());
    assert(text_list(seq![device_id@])->List_0 =~= seq![Json::Text(device_id@)]);
}

/// A transfer that is tried does what the transfer does, unless it would go to
/// the native player at a moment from which the last poll cannot be dated back:
/// then nothing happens.
pub proof fn law_a_transfer_may_be_tried_at_any_moment(
    state: &mut PlaybackState,
    env: PlaybackEnv,
    device_id: &str,
    persist: bool,
    out: &mut Outbox,
    r: Result<Option<ApiCall>, TooEarly>,
    backend: PlaybackBackend<'static>,
    moved: &mut PlaybackState,
    moved_out: &mut Outbox,
    moved_r: Option<ApiCall>,
)
    requires
        call_ensures(
            PlaybackState::transfer_playback_backend,
            (&*old(state), &env, device_id),
            backend,
        ),
        call_ensures(
            PlaybackState::try_transfert_playback_to_device,
            (state, &env, device_id, persist, out),
            r,
        ),
        *old(moved) == *old(state),
        old(moved_out)@ == old(out)@,
        backend is Connect || env.now.nanos >= i64::MIN + 6_000_000_000 ==> call_ensures(
            PlaybackState::transfert_playback_to_device,
            (moved, &env, device_id, persist, moved_out),
            moved_r,
        ),
    ensures
        backend is Connect || env.now.nanos >= i64::MIN + 6_000_000_000 ==> {
            &&& r is Ok
            &&& *final(state) == *final(moved)
            &&& final(out)@ == final(moved_out)@
            &&& r->Ok_0 is Some <==> moved_r is Some
            &&& moved_r is Some ==> r->Ok_0->0@ == moved_r->0@
        },
        backend is Native && env.now.nanos < i64::MIN + 6_000_000_000 ==> {
            &&& r is Err
            &&& *final(state) == *old(state)
            &&& final(out)@ == old(out)@
        },
{
}

/// A selection of the native device needs a player. It makes that the one that
/// plays at once, with the activation pending, takes playback over unless the
/// player has it, is about to or was activated within five seconds, and
/// activates it. It is remembered as any player that is used, and the list of
/// devices is to be asked for twice, 200 milliseconds apart.
pub proof fn law_what_a_selection_begins_with(
    state: &mut PlaybackState,
    env: PlaybackEnv,
    device_name: String,
    persist: bool,
    out: &mut Outbox,
    r: Option<DeviceSelection>,
)
    requires
        env.now.nanos >= i64::MIN + 6_000_000_000,
        call_ensures(
            PlaybackState::auto_select_streaming_device,
            (state, &env, device_name, persist, out),
            r,
        ),
    ensures
        env.player is None ==> r is None && *final(state) == *old(state) && final(out)@
            == old(out)@,
        env.player matches Some(player) ==> {
            let recent = old(state).last_device_activation is Some && env.now.nanos
                - old(state).last_device_activation->0.nanos < 5_000_000_000;
            let transfers = !old(state).native_activation_pending
                && !old(state).is_streaming_active && !recent;
            &&& r is Some
            &&& r->0.device_id == player.device_id
            &&& r->0.device_name == device_name
            &&& r->0.activated_at == env.now
            &&& r->0.polls_left == 2
            &&& r->0.poll_delay_ms == 200
            &&& (r->0.update == NativeDevicePreferenceUpdate::Persist) == remembers(
                *old(state),
                env,
                player,
                persist,
            )
            &&& transfers ==> final(out)@ == old(out)@ + seq![
                EffectView::Transfer,
                EffectView::Activate,
            ]
            &&& !transfers ==> final(out)@ == old(out)@ + seq![EffectView::Activate]
            &&& final(state).instant_since_last_current_playback_poll.nanos + 6_000_000_000
                == env.now.nanos
            &&& *final(state) == (PlaybackState {
                is_streaming_active: true,
                native_activation_pending: true,
                last_device_activation: Some(env.now),
                instant_since_last_current_playback_poll:
                    final(state).instant_since_last_current_playback_poll,
                ..*old(state)
            })
        },
{
}

/// Once the player was activated, the selection is the one that plays: its
/// device is known, its activation is no longer pending and is dated to when it
/// was made, no attempt to wake the player up is left, and the device is
/// remembered as the selection says. The list of devices is asked for.
pub proof fn law_what_an_activated_selection_does(
    state: &mut PlaybackState,
    env: PlaybackEnv,
    selection: DeviceSelection,
    out: &mut Outbox,
    r: ApiCall,
)
    requires
        selection.activated_at.nanos >= i64::MIN + 6_000_000_000,
        call_ensures(
            PlaybackState::streaming_device_activated,
            (state, &env, &selection, out),
            r,
        ),
    ensures
        r@ == (ApiCallView {
            method: ApiMethod::Get,
            path: "me/player/devices"@,
            query: Seq::empty(),
            body: None,
        }),
        ({
            let saved = env.saved_device_id is Some && env.saved_device_id->0@
                == selection.device_id@;
            let persists = selection.update == NativeDevicePreferenceUpdate::Persist && !saved;
            &&& persists ==> final(out)@ == old(out)@ + seq![
                EffectView::PersistDeviceId(selection.device_id@),
            ]
            &&& !persists ==> final(out)@ == old(out)@
        }),
        final(state).instant_since_last_current_playback_poll.nanos + 6_000_000_000
            == selection.activated_at.nanos,
        final(state).native_idle_recovery.player_instance
            == old(state).native_idle_recovery.player_instance,
        forall|later: Moment|
            !(#[trigger] final(state).native_idle_recovery.phase.grants(later)),
        *final(state) == (PlaybackState {
            is_streaming_active: true,
            native_activation_pending: false,
            native_device_id: Some(selection.device_id),
            last_device_activation: Some(selection.activated_at),
            instant_since_last_current_playback_poll:
                final(state).instant_since_last_current_playback_poll,
            native_idle_recovery: final(state).native_idle_recovery,
            ..*old(state)
        }),
{
}

/// A list of devices that holds the selected device, or one of the name that was
/// asked for, is kept, and those who wait for it are told; any other is not. The
/// list is asked for again exactly where it did not hold the selected device and
/// a question is left.
pub proof fn law_what_a_list_of_devices_does(
    state: &mut PlaybackState,
    selection: DeviceSelection,
    reply: Option<DevicePayload>,
    out: &mut Outbox,
    r: Option<DeviceSelection>,
)
    requires
        call_ensures(
            PlaybackState::selected_devices_polled,
            (state, selection, reply, out),
            r,
        ),
    ensures
        ({
            let by_id = reply is Some && lists_id(reply->0.devices@, selection.device_id@);
            let by_name = reply is Some && lists_name(reply->0.devices@, selection.device_name@);
            &&& by_id || by_name ==> {
                &&& *final(state) == (PlaybackState { devices: reply, ..*old(state) })
                &&& final(out)@ == old(out)@ + seq![
                    EffectView::BumpPluginData(PluginDataKind::Devices),
                ]
            }
            &&& !by_id && !by_name ==> *final(state) == *old(state) && final(out)@ == old(out)@
            &&& by_id ==> r is None
            &&& !by_id && selection.polls_left <= 1 ==> r is None
            &&& !by_id && selection.polls_left > 1 ==> {
                &&& r is Some
                &&& r->0.polls_left + 1 == selection.polls_left
                &&& r->0.device_id == selection.device_id
                &&& r->0.device_name == selection.device_name
                &&& r->0.activated_at == selection.activated_at
                &&& r->0.update == selection.update
                &&& r->0.poll_delay_ms == selection.poll_delay_ms
            }
        }),
{
}

} // verus!
