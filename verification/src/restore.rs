//! How native playback is restored after a lost connection.

use crate::effects::{Effect, EffectView, Outbox};
use crate::items::RepeatState;
use crate::request::{
    native_restore_load_request, optional_load, restore_load, NativeLoadRequest,
    NativePlaybackRecoverySnapshot,
};
use crate::state::{PlaybackEnv, PlaybackState};
use vstd::prelude::*;

verus! {

/// Whether there is a native player with a connection.
pub open spec fn player_connected(env: PlaybackEnv) -> bool {
    env.player is Some && env.player->0.connected
}

/// Whether this is the restore that is under way.
pub open spec fn is_current(env: PlaybackEnv, generation: u64) -> bool {
    env.restore_generation == Some(generation)
}

/// The state of a restore that was begun.
pub open spec fn after_restore_begun(
    state: PlaybackState,
    env: PlaybackEnv,
    generation: u64,
    snapshot: NativePlaybackRecoverySnapshot,
) -> PlaybackState {
    PlaybackState {
        native_load_watchdog: if restore_load(snapshot) is None && is_current(env, generation) {
            None
        } else {
            Some(env.now)
        },
        ..state
    }
}

/// The effects of a restore that was begun: the player is activated to load,
/// unless there is nothing to restore.
pub open spec fn restore_begun_effects(
    out: Seq<EffectView>,
    env: PlaybackEnv,
    generation: u64,
    snapshot: NativePlaybackRecoverySnapshot,
) -> Seq<EffectView> {
    let told = out.push(
        EffectView::SetStatusMessage {
            message: "Native connection restored; restoring playback."@,
            ttl_secs: 6,
        },
    );
    if restore_load(snapshot) is Some {
        told.push(EffectView::Activate)
    } else if is_current(env, generation) {
        told.push(EffectView::ClearNativeRestore).push(
            EffectView::SetStatusMessage {
                message: "Native connection recovered, but there was no playback state to restore."@,
                ttl_secs: 8,
            },
        )
    } else {
        told
    }
}

/// The state after what was playing was loaded again.
pub open spec fn after_restored(
    state: PlaybackState,
    snapshot: NativePlaybackRecoverySnapshot,
) -> PlaybackState {
    PlaybackState {
        is_streaming_active: true,
        native_is_playing: Some(snapshot.desired_playing),
        song_progress_ms: snapshot.spec_restore_position_ms() as u128,
        ..state.with_playing(snapshot.desired_playing).with_shuffle(snapshot.shuffle).with_repeat(
            snapshot.repeat,
        )
    }
}

/// The state after what was playing could not be loaded again.
pub open spec fn after_restore_failed(state: PlaybackState) -> PlaybackState {
    PlaybackState { native_load_watchdog: None, ..state }
}

impl PlaybackState {
    /// Begins to restore native playback. Returns whether to go on, with what
    /// was playing. A request to start playback that waits comes first, and
    /// without a connection the player is recovered instead.
    pub fn restore_native_playback(&self, env: &PlaybackEnv, out: &mut Outbox) -> (r: bool)
        ensures
            r == (self.pending_start_playback is None && player_connected(*env)),
            final(out)@ == (if self.pending_start_playback is None && !player_connected(*env) {
                old(out)@.push(EffectView::ForceNativeStreamingRecovery)
            } else {
                old(out)@
            }),
    {
        if self.pending_start_playback.is_some() {
            return false;
        }
        let connected = match &env.player {
            Some(player) => player.connected,
            None => false,
        };
        if !connected {
            out.push(Effect::ForceNativeStreamingRecovery);
        }
        connected
    }

    /// Goes on to restore native playback once it is known what was playing.
    /// The load to make is returned, where there is anything to restore.
    pub fn restore_begun(
        &mut self,
        env: &PlaybackEnv,
        generation: u64,
        snapshot: &NativePlaybackRecoverySnapshot,
        out: &mut Outbox,
    ) -> (r: Option<NativeLoadRequest>)
        ensures
            *final(self) == after_restore_begun(*old(self), *env, generation, *snapshot),
            final(out)@ == restore_begun_effects(old(out)@, *env, generation, *snapshot),
            optional_load(r) == restore_load(*snapshot),
    {
        self.native_load_watchdog = Some(env.now);
        out.status("Native connection restored; restoring playback.", 6);
        let request = native_restore_load_request(snapshot);
        if request.is_some() {
            out.push(Effect::Activate);
        } else if is_current_restore(env, generation) {
            self.native_load_watchdog = None;
            out.push(Effect::ClearNativeRestore);
            out.status(
                "Native connection recovered, but there was no playback state to restore.",
                8,
            );
        }
        request
    }

    /// Takes the answer to the load that restores playback, unless another
    /// restore is under way by now.
    pub fn restore_loaded(
        &mut self,
        env: &PlaybackEnv,
        generation: u64,
        snapshot: &NativePlaybackRecoverySnapshot,
        reply: Result<(), String>,
        out: &mut Outbox,
    )
        ensures
            *final(self) == (if !is_current(*env, generation) {
                *old(self)
            } else if reply is Ok {
                after_restored(*old(self), *snapshot)
            } else {
                after_restore_failed(*old(self))
            }),
            final(out)@ == (if is_current(*env, generation) && reply is Err {
                old(out)@.push(EffectView::ClearNativeRestore).push(
                    EffectView::SetStatusMessage {
                        message: "Native playback restore failed; reconnecting again."@,
                        ttl_secs: 8,
                    },
                ).push(EffectView::ForceNativeStreamingRecovery)
            } else {
                old(out)@
            }),
    {
        if !is_current_restore(env, generation) {
            return ;
        }
        match reply {
            Ok(_) => {
                self.is_streaming_active = true;
                self.native_is_playing = Some(snapshot.desired_playing);
                self.song_progress_ms = snapshot.restore_position_ms() as u128;
                self.set_playing(snapshot.desired_playing);
                self.set_shuffle(snapshot.shuffle);
                self.set_repeat(snapshot.repeat);
            },
            Err(_) => {
                self.native_load_watchdog = None;
                out.push(Effect::ClearNativeRestore);
                out.status("Native playback restore failed; reconnecting again.", 8);
                out.push(Effect::ForceNativeStreamingRecovery);
            },
        }
    }
}

fn is_current_restore(env: &PlaybackEnv, generation: u64) -> (r: bool)
    ensures
        r == is_current(*env, generation),
{
    match env.restore_generation {
        Some(current) => current == generation,
        None => false,
    }
}

/// Playback is restored as it was: running or paused, shuffled and repeated as
/// before, and shown where the load resumes it.
pub proof fn law_restored_playback_is_as_it_was(
    state: PlaybackState,
    snapshot: NativePlaybackRecoverySnapshot,
)
    requires
        restore_load(snapshot) is Some,
        state.current_playback_context is Some,
    ensures
        ({
            let after = after_restored(state, snapshot);
            let ctx = after.current_playback_context->0;
            let load = restore_load(snapshot)->0;
            &&& ctx.is_playing == load.start_playing
            &&& after.native_is_playing == Some(load.start_playing)
            &&& after.song_progress_ms == load.seek_to
            &&& ctx.shuffle_state == load.context_options->0.shuffle
            &&& (ctx.repeat_state != RepeatState::Off) == load.context_options->0.repeat
            &&& (ctx.repeat_state == RepeatState::Track) == load.context_options->0.repeat_track
        }),
{
}

/// A restore goes on exactly where no start waits and a player is connected.
/// Where only the connection is missing, the player is recovered.
pub proof fn law_when_a_restore_goes_on(
    state: PlaybackState,
    env: PlaybackEnv,
    out: &mut Outbox,
    r: bool,
)
    requires
        call_ensures(PlaybackState::restore_native_playback, (&state, &env, out), r),
    ensures
        state.pending_start_playback is Some ==> !r && final(out)@ == old(out)@,
        state.pending_start_playback is None && env.player is Some && env.player->0.connected
            ==> r && final(out)@ == old(out)@,
        state.pending_start_playback is None && (env.player is None || !env.player->0.connected)
            ==> !r && final(out)@ == old(out)@ + seq![EffectView::ForceNativeStreamingRecovery],
{
}

/// A restore that was begun is told of and watched, and the player is activated
/// to load what was playing. Where there is nothing to load and the restore is
/// still the one under way, it is over: nothing is watched, and that is told.
pub proof fn law_what_beginning_a_restore_does(
    state: &mut PlaybackState,
    env: PlaybackEnv,
    generation: u64,
    snapshot: NativePlaybackRecoverySnapshot,
    out: &mut Outbox,
    r: Option<NativeLoadRequest>,
    load: Option<NativeLoadRequest>,
)
    requires
        call_ensures(
            PlaybackState::restore_begun,
            (state, &env, generation, &snapshot, out),
            r,
        ),
        call_ensures(native_restore_load_request, (&snapshot,), load),
    ensures
        r is Some <==> load is Some,
        r is Some ==> r->0@ == load->0@,
        ({
            let told = EffectView::SetStatusMessage {
                message: "Native connection restored; restoring playback."@,
                ttl_secs: 6,
            };
            let nothing = EffectView::SetStatusMessage {
                message: "Native connection recovered, but there was no playback state to restore."@,
                ttl_secs: 8,
            };
            let over = r is None && env.restore_generation == Some(generation);
            &&& r is Some ==> final(out)@ == old(out)@ + seq![told, EffectView::Activate]
            &&& over ==> final(out)@ == old(out)@ + seq![
                told,
                EffectView::ClearNativeRestore,
                nothing,
            ]
            &&& r is None && !over ==> final(out)@ == old(out)@ + seq![told]
            &&& over ==> *final(state) == (PlaybackState {
                native_load_watchdog: None,
                ..*old(state)
            })
            &&& !over ==> *final(state) == (PlaybackState {
                native_load_watchdog: Some(env.now),
                ..*old(state)
            })
        }),
{
}

/// A load that restores playback counts only while its restore is the one under
/// way. Then playback is shown as it was: playing or not, shuffled, repeated and
/// at the position where the load goes on. A failure ends the watch, is told,
/// and has the player recovered.
pub proof fn law_what_the_answer_to_a_restore_does(
    state: &mut PlaybackState,
    env: PlaybackEnv,
    generation: u64,
    snapshot: NativePlaybackRecoverySnapshot,
    reply: Result<(), String>,
    out: &mut Outbox,
    position: u32,
)
    requires
        call_ensures(
            PlaybackState::restore_loaded,
            (state, &env, generation, &snapshot, reply, out),
            (),
        ),
        call_ensures(NativePlaybackRecoverySnapshot::restore_position_ms, (&snapshot,), position),
    ensures
        env.restore_generation != Some(generation) ==> *final(state) == *old(state) && final(out)@
            == old(out)@,
        env.restore_generation == Some(generation) && reply is Ok ==> {
            &&& final(out)@ == old(out)@
            &&& final(state).is_streaming_active
            &&& final(state).native_is_playing == Some(snapshot.desired_playing)
            &&& final(state).song_progress_ms == position
            &&& old(state).current_playback_context is None
                ==> final(state).current_playback_context is None
            &&& old(state).current_playback_context matches Some(ctx)
                ==> final(state).current_playback_context == Some(
                crate::items::PlaybackContext {
                    is_playing: snapshot.desired_playing,
                    shuffle_state: snapshot.shuffle,
                    repeat_state: snapshot.repeat,
                    ..ctx
                },
            )
            &&& *final(state) == (PlaybackState {
                is_streaming_active: true,
                native_is_playing: final(state).native_is_playing,
                song_progress_ms: final(state).song_progress_ms,
                current_playback_context: final(state).current_playback_context,
                ..*old(state)
            })
        },
        env.restore_generation == Some(generation) && reply is Err ==> {
            &&& *final(state) == (PlaybackState { native_load_watchdog: None, ..*old(state) })
            &&& final(out)@ == old(out)@ + seq![
                EffectView::ClearNativeRestore,
                EffectView::SetStatusMessage {
                    message: "Native playback restore failed; reconnecting again."@,
                    ttl_secs: 8,
                },
                EffectView::ForceNativeStreamingRecovery,
            ]
        },
{
}

} // verus!
