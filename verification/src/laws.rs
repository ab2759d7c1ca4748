//! What every step of playback keeps.

use crate::device::DevicePayload;
use crate::items::{PlaybackContext, RepeatState};
use crate::poll::{
    after_poll, after_poll_without_native_player, available_instance, LocalState,
};
use crate::request::NativePlaybackRecoverySnapshot;
use crate::restore::{after_restore_begun, after_restore_failed, after_restored};
use crate::start::{
    after_api_answer, after_check, after_load_answer, after_route, ApiStage, LoadStage,
    NativeStart, StartPlan,
};
use crate::state::{NativePlayer, PlaybackEnv, PlaybackState};
use crate::time::Moment;
use crate::transfer::{
    after_moved_away, after_native_transfer, after_selected, while_selecting, DeviceSelection,
};
use vstd::prelude::*;

verus! {

/// Something that happens to playback.
#[allow(inconsistent_fields)]
pub enum Step {
    PollBegun,
    Polled { local: Option<LocalState>, reply: Result<Option<PlaybackContext>, String> },
    PolledWithoutPlayer { reply: Result<Option<PlaybackContext>, String> },
    StartChecked { plan: StartPlan },
    StartRouted { native: NativeStart },
    Loaded { stage: LoadStage, reply: Result<(), String> },
    Answered { stage: ApiStage, reply: Result<(), String> },
    Transferred { player: NativePlayer },
    SelectionBegun,
    Selected { selection: DeviceSelection },
    RestoreBegun { generation: u64, snapshot: NativePlaybackRecoverySnapshot },
    Restored { snapshot: NativePlaybackRecoverySnapshot },
    RestoreFailed,
    PendingStartDropped,
    PausedNatively,
    Paused,
    Shuffled { shuffle: bool },
    Repeated { repeat: RepeatState },
    VolumeSet { volume: u8 },
    VolumeRefused,
    MovedAway,
    DevicesListed { devices: DevicePayload },
    Told { message: String, until: Moment },
}

/// The state after a step.
pub open spec fn after_step(state: PlaybackState, env: PlaybackEnv, step: Step) -> PlaybackState {
    match step {
        Step::PollBegun => PlaybackState {
            native_idle_recovery: state.native_idle_recovery.observing(available_instance(env)),
            ..state
        },
        Step::Polled { local, reply } => after_poll(state, env, local, reply),
        Step::PolledWithoutPlayer { reply } => after_poll_without_native_player(
            state,
            env.now,
            reply,
        ),
        Step::StartChecked { plan } => after_check(state, env, plan),
        Step::StartRouted { native } => after_route(state, native),
        Step::Loaded { stage, reply } => after_load_answer(state, env, stage, reply),
        Step::Answered { stage, reply } => after_api_answer(state, env, stage, reply),
        Step::Transferred { player } => after_native_transfer(state, env, player),
        Step::SelectionBegun => while_selecting(state, env),
        Step::Selected { selection } => after_selected(state, selection),
        Step::RestoreBegun { generation, snapshot } => after_restore_begun(
            state,
            env,
            generation,
            snapshot,
        ),
        Step::Restored { snapshot } => after_restored(state, snapshot),
        Step::RestoreFailed => after_restore_failed(state),
        Step::PendingStartDropped => state.without_pending_start(),
        Step::PausedNatively => state.paused_natively(),
        Step::Paused => state.with_playing(false),
        Step::Shuffled { shuffle } => state.with_shuffle(shuffle),
        Step::Repeated { repeat } => state.with_repeat(repeat),
        Step::VolumeSet { volume } => state.after_volume_set(volume),
        Step::VolumeRefused => state.after_volume_refused(),
        Step::MovedAway => after_moved_away(state),
        Step::DevicesListed { devices } => PlaybackState { devices: Some(devices), ..state },
        Step::Told { message, until } => PlaybackState {
            status_message: Some(message),
            status_message_expires_at: Some(until),
            ..state
        },
    }
}

/// Every step keeps the count of attempts to wake the native player up valid.
pub proof fn law_every_step_keeps_recovery_valid(
    state: PlaybackState,
    env: PlaybackEnv,
    step: Step,
)
    requires
        state.native_idle_recovery.well_formed(),
    ensures
        after_step(state, env, step).native_idle_recovery.well_formed(),
{
}

/// A change of the volume is under way until a poll reports it, or until it is
/// refused: no other step ends it.
pub proof fn law_only_a_poll_ends_a_volume_change(
    state: PlaybackState,
    env: PlaybackEnv,
    step: Step,
)
    requires
        !(step is Polled),
        !(step is PolledWithoutPlayer),
        !(step is VolumeRefused),
    ensures
        after_step(state, env, step).pending_volume == state.pending_volume,
{
}

/// Only a poll that begins with a new native player, and none of the other
/// steps, lets it be woken up more often.
pub proof fn law_only_a_new_player_is_woken_up_again(
    state: PlaybackState,
    env: PlaybackEnv,
    step: Step,
)
    requires
        state.native_idle_recovery.well_formed(),
        step is PollBegun ==> state.native_idle_recovery.player_instance == available_instance(env),
    ensures
        after_step(state, env, step).native_idle_recovery.phase.made()
            >= state.native_idle_recovery.phase.made(),
        after_step(state, env, step).native_idle_recovery.player_instance
            == state.native_idle_recovery.player_instance,
{
    let after = after_step(state, env, step).native_idle_recovery;
    match step {
        Step::Polled { local, reply } => match reply {
            Ok(Some(_)) => {
                assert(after == state.native_idle_recovery);
            },
            _ => {
                assert(after == state.native_idle_recovery || after
                    == state.native_idle_recovery.attempting(env.now));
            },
        },
        Step::PolledWithoutPlayer { reply } => {
            assert(after == state.native_idle_recovery);
        },
        _ => {},
    }
}

} // verus!
