//! Commands on running playback.

use crate::effects::{
    optional_call, plain_call, query_call, ApiCall, ApiCallView, ApiMethod, Effect, EffectView,
    IoEvent, IoEventView, Outbox,
};
use crate::errors::{is_no_active_device_error, no_active_device};
use crate::items::{repeat_name, repeat_text, PlaybackContext, RepeatState};
use crate::state::{PlaybackBackend, PlaybackEnv, PlaybackState};
use crate::text::{decimal, number_text, truth, truth_text};
use vstd::prelude::*;

verus! {

/// The milliseconds between the two steps back of a forced one: the first
/// restarts the track, the second then leaves it.
pub const FORCED_PREVIOUS_DELAY_MS: u64 = 500;

/// The effects of a command that the Web API refused. While a native player is
/// expected, that there is no device is no error.
pub open spec fn refused_effects(
    out: Seq<EffectView>,
    state: PlaybackState,
    error: Seq<char>,
) -> Seq<EffectView> {
    if no_active_device(error) && state.native_backend_pending {
        out.push(
            EffectView::SetStatusMessage {
                message: "Reconnecting native streaming…"@,
                ttl_secs: 5,
            },
        )
    } else {
        out.push(EffectView::HandleError(error))
    }
}

/// The effects of the answer to a command.
pub open spec fn answered_effects(
    out: Seq<EffectView>,
    state: PlaybackState,
    reply: Result<(), String>,
) -> Seq<EffectView> {
    match reply {
        Ok(_) => out,
        Err(error) => refused_effects(out, state, error@),
    }
}

/// The call to make, unless the native player takes the command.
pub open spec fn unless_native(native: bool, call: ApiCallView) -> Option<ApiCallView> {
    if native {
        None
    } else {
        Some(call)
    }
}

impl PlaybackState {
    /// The state without a request to start playback that waits for the native
    /// player.
    pub open spec fn without_pending_start(self) -> Self {
        PlaybackState { pending_start_playback: None, native_load_watchdog: None, ..self }
    }

    /// The state after the native player was told to pause.
    pub open spec fn paused_natively(self) -> Self {
        PlaybackState {
            native_is_playing: Some(false),
            ..self.without_pending_start().with_playing(false)
        }
    }

    fn drop_pending_start(&mut self)
        ensures
            *final(self) == old(self).without_pending_start(),
    {
        self.pending_start_playback = None;
        self.native_load_watchdog = None;
    }

    /// While a native player is expected to come up, the failure of a command
    /// for want of a device is told in passing instead of as an error. Returns
    /// whether it was.
    pub fn suppressed_no_device_error_while_pending(&self, error: &str, out: &mut Outbox) -> (r:
        bool)
        ensures
            r == (no_active_device(error@) && self.native_backend_pending),
            final(out)@ == (if r {
                refused_effects(old(out)@, *self, error@)
            } else {
                old(out)@
            }),
    {
        if !is_no_active_device_error(error) {
            return false;
        }
        if !self.native_backend_pending {
            return false;
        }
        out.status("Reconnecting native streaming…", 5);
        true
    }

    /// Takes the failure of a command.
    fn command_refused(&self, error: &str, out: &mut Outbox)
        ensures
            final(out)@ == refused_effects(old(out)@, *self, error@),
    {
        if self.suppressed_no_device_error_while_pending(error, out) {
            return ;
        }
        out.error(error);
    }

    /// Takes the answer to a step forward or back, or to a seek.
    pub fn command_answered(&self, reply: Result<(), String>, out: &mut Outbox)
        ensures
            final(out)@ == answered_effects(old(out)@, *self, reply),
    {
        if let Err(error) = reply {
            self.command_refused(error.as_str(), out);
        }
    }

    /// Whether the native player takes a command on running playback.
    fn takes_natively(&self, env: &PlaybackEnv) -> (r: bool)
        ensures
            r == self.native_is_active(*env),
    {
        match self.symmetric_playback_backend(env) {
            PlaybackBackend::Native(_) => true,
            PlaybackBackend::Connect => false,
        }
    }

    /// Pauses playback. A request to start it that still waits is dropped. The
    /// call to make is returned unless the native player takes the command.
    pub fn pause_playback(&mut self, env: &PlaybackEnv, out: &mut Outbox) -> (r: Option<ApiCall>)
        ensures
            *final(self) == (if old(self).native_is_active(*env) {
                old(self).paused_natively()
            } else {
                old(self).without_pending_start()
            }),
            final(out)@ == (if old(self).native_is_active(*env) {
                old(out)@.push(EffectView::Pause).push(EffectView::SetNativePlaybackIntent(false))
            } else {
                old(out)@
            }),
            optional_call(r) == unless_native(
                old(self).native_is_active(*env),
                plain_call(ApiMethod::Put, "me/player/pause"@, None),
            ),
    {
        self.drop_pending_start();
        assert(self.native_is_active(*env) == old(self).native_is_active(*env));
        if self.takes_natively(env) {
            out.push(Effect::Pause);
            out.push(Effect::SetNativePlaybackIntent(false));
            self.native_is_playing = Some(false);
            self.set_playing(false);
            return None;
        }
        Some(ApiCall::new(ApiMethod::Put, "me/player/pause", None))
    }

    /// Takes the answer to a pause.
    pub fn pause_answered(&mut self, reply: Result<(), String>, out: &mut Outbox)
        ensures
            *final(self) == (if reply is Ok {
                old(self).with_playing(false)
            } else {
                *old(self)
            }),
            final(out)@ == answered_effects(old(out)@, *old(self), reply),
    {
        match reply {
            Ok(_) => {
                self.set_playing(false);
            },
            Err(error) => {
                self.command_refused(error.as_str(), out);
            },
        }
    }

    /// Goes to the next item. A request to start playback that still waits is
    /// dropped. The call to make is returned unless the native player takes the
    /// command.
    pub fn next_track(&mut self, env: &PlaybackEnv, out: &mut Outbox) -> (r: Option<ApiCall>)
        ensures
            *final(self) == old(self).without_pending_start(),
            final(out)@ == (if old(self).native_is_active(*env) {
                old(out)@.push(EffectView::Next)
            } else {
                old(out)@
            }),
            optional_call(r) == unless_native(
                old(self).native_is_active(*env),
                plain_call(ApiMethod::Post, "me/player/next"@, None),
            ),
    {
        self.drop_pending_start();
        assert(self.native_is_active(*env) == old(self).native_is_active(*env));
        if self.takes_natively(env) {
            out.push(Effect::Next);
            return None;
        }
        Some(ApiCall::new(ApiMethod::Post, "me/player/next", None))
    }

    /// Goes to the previous item, or to the start of this one. A request to
    /// start playback that still waits is dropped. The call to make is returned
    /// unless the native player takes the command.
    pub fn previous_track(&mut self, env: &PlaybackEnv, out: &mut Outbox) -> (r: Option<ApiCall>)
        ensures
            *final(self) == old(self).without_pending_start(),
            final(out)@ == (if old(self).native_is_active(*env) {
                old(out)@.push(EffectView::Previous)
            } else {
                old(out)@
            }),
            optional_call(r) == unless_native(
                old(self).native_is_active(*env),
                plain_call(ApiMethod::Post, "me/player/previous"@, None),
            ),
    {
        self.drop_pending_start();
        assert(self.native_is_active(*env) == old(self).native_is_active(*env));
        if self.takes_natively(env) {
            out.push(Effect::Previous);
            return None;
        }
        Some(ApiCall::new(ApiMethod::Post, "me/player/previous", None))
    }

    /// Goes to the previous item in any case: steps back twice, as the first
    /// step may only restart the track. The call to make is returned unless the
    /// native player takes the command.
    pub fn force_previous_track(&self, env: &PlaybackEnv, out: &mut Outbox) -> (r: Option<ApiCall>)
        ensures
            final(out)@ == (if self.native_is_active(*env) {
                old(out)@.push(EffectView::Previous).push(
                    EffectView::PreviousAfter(FORCED_PREVIOUS_DELAY_MS),
                )
            } else {
                old(out)@
            }),
            optional_call(r) == unless_native(
                self.native_is_active(*env),
                plain_call(ApiMethod::Post, "me/player/previous"@, None),
            ),
    {
        if self.takes_natively(env) {
            out.push(Effect::Previous);
            out.push(Effect::PreviousAfter(FORCED_PREVIOUS_DELAY_MS));
            return None;
        }
        Some(ApiCall::new(ApiMethod::Post, "me/player/previous", None))
    }

    /// Takes the answer to the first step back of two: the second follows later.
    pub fn force_previous_answered(&self, reply: Result<(), String>, out: &mut Outbox)
        ensures
            final(out)@ == (match reply {
                Ok(_) => old(out)@.push(
                    EffectView::DispatchAfter {
                        event: IoEventView::PreviousTrack,
                        millis: FORCED_PREVIOUS_DELAY_MS,
                    },
                ),
                Err(error) => refused_effects(old(out)@, *self, error@),
            }),
    {
        match reply {
            Ok(_) => {
                out.push(
                    Effect::DispatchAfter {
                        event: IoEvent::PreviousTrack,
                        millis: FORCED_PREVIOUS_DELAY_MS,
                    },
                );
            },
            Err(error) => {
                self.command_refused(error.as_str(), out);
            },
        }
    }

    /// Goes to a position in the item. The call to make is returned unless the
    /// native player takes the command.
    pub fn seek(&self, env: &PlaybackEnv, position_ms: u32, out: &mut Outbox) -> (r: Option<
        ApiCall,
    >)
        ensures
            final(out)@ == (if self.native_is_active(*env) {
                old(out)@.push(EffectView::Seek(position_ms)).push(
                    EffectView::SetNativeRecoveryPosition(position_ms),
                )
            } else {
                old(out)@
            }),
            optional_call(r) == unless_native(
                self.native_is_active(*env),
                query_call(
                    ApiMethod::Put,
                    "me/player/seek"@,
                    "position_ms"@,
                    decimal(position_ms as nat),
                    None,
                ),
            ),
    {
        if self.takes_natively(env) {
            out.push(Effect::Seek(position_ms));
            out.push(Effect::SetNativeRecoveryPosition(position_ms));
            return None;
        }
        Some(
            ApiCall::new(ApiMethod::Put, "me/player/seek", None).with(
                "position_ms",
                number_text(position_ms as u64),
            ),
        )
    }

    /// Shuffles playback or not. The call to make is returned unless the native
    /// player takes the command.
    pub fn shuffle(&mut self, env: &PlaybackEnv, shuffle_state: bool, out: &mut Outbox) -> (r:
        Option<ApiCall>)
        ensures
            *final(self) == (if old(self).native_is_active(*env) {
                old(self).with_shuffle(shuffle_state)
            } else {
                *old(self)
            }),
            final(out)@ == (if old(self).native_is_active(*env) {
                old(out)@.push(EffectView::SetShuffle(shuffle_state)).push(
                    EffectView::SetNativeRecoveryShuffle(shuffle_state),
                )
            } else {
                old(out)@
            }),
            optional_call(r) == unless_native(
                old(self).native_is_active(*env),
                query_call(
                    ApiMethod::Put,
                    "me/player/shuffle"@,
                    "state"@,
                    truth(shuffle_state),
                    None,
                ),
            ),
    {
        if self.takes_natively(env) {
            out.push(Effect::SetShuffle(shuffle_state));
            out.push(Effect::SetNativeRecoveryShuffle(shuffle_state));
            self.set_shuffle(shuffle_state);
            return None;
        }
        Some(
            ApiCall::new(ApiMethod::Put, "me/player/shuffle", None).with(
                "state",
                truth_text(shuffle_state),
            ),
        )
    }

    /// Takes the answer to a request to shuffle or not.
    pub fn shuffle_answered(
        &mut self,
        shuffle_state: bool,
        reply: Result<(), String>,
        out: &mut Outbox,
    )
        ensures
            *final(self) == (if reply is Ok {
                old(self).with_shuffle(shuffle_state)
            } else {
                *old(self)
            }),
            final(out)@ == answered_effects(old(out)@, *old(self), reply),
    {
        match reply {
            Ok(_) => {
                self.set_shuffle(shuffle_state);
            },
            Err(error) => {
                self.command_refused(error.as_str(), out);
            },
        }
    }

    /// Repeats playback or not. The call to make is returned unless the native
    /// player takes the command.
    pub fn repeat(&mut self, env: &PlaybackEnv, repeat_state: RepeatState, out: &mut Outbox) -> (r:
        Option<ApiCall>)
        ensures
            *final(self) == (if old(self).native_is_active(*env) {
                old(self).with_repeat(repeat_state)
            } else {
                *old(self)
            }),
            final(out)@ == (if old(self).native_is_active(*env) {
                old(out)@.push(EffectView::SetRepeat(repeat_state)).push(
                    EffectView::SetNativeRecoveryRepeat(repeat_state),
                )
            } else {
                old(out)@
            }),
            optional_call(r) == unless_native(
                old(self).native_is_active(*env),
                query_call(
                    ApiMethod::Put,
                    "me/player/repeat"@,
                    "state"@,
                    repeat_name(repeat_state),
                    None,
                ),
            ),
    {
        if self.takes_natively(env) {
            out.push(Effect::SetRepeat(repeat_state));
            out.push(Effect::SetNativeRecoveryRepeat(repeat_state));
            self.set_repeat(repeat_state);
            return None;
        }
        Some(
            ApiCall::new(ApiMethod::Put, "me/player/repeat", None).with(
                "state",
                repeat_text(repeat_state).to_string(),
            ),
        )
    }

    /// Takes the answer to a request to repeat or not.
    pub fn repeat_answered(
        &mut self,
        repeat_state: RepeatState,
        reply: Result<(), String>,
        out: &mut Outbox,
    )
        ensures
            *final(self) == (if reply is Ok {
                old(self).with_repeat(repeat_state)
            } else {
                *old(self)
            }),
            final(out)@ == answered_effects(old(out)@, *old(self), reply),
    {
        match reply {
            Ok(_) => {
                self.set_repeat(repeat_state);
            },
            Err(error) => {
                self.command_refused(error.as_str(), out);
            },
        }
    }

    /// The state after a volume was set. That it was asked for is kept in mind
    /// until a poll reports it.
    pub open spec fn after_volume_set(self, volume: u8) -> Self {
        PlaybackState {
            is_volume_change_in_flight: false,
            last_dispatched_volume: Some(volume),
            ..self.with_volume(volume)
        }
    }

    /// The state after a volume was refused: the change is given up.
    pub open spec fn after_volume_refused(self) -> Self {
        PlaybackState {
            is_volume_change_in_flight: false,
            pending_volume: None,
            last_dispatched_volume: None,
            ..self
        }
    }

    fn volume_was_set(&mut self, volume: u8)
        ensures
            *final(self) == old(self).after_volume_set(volume),
    {
        self.set_volume(volume);
        self.is_volume_change_in_flight = false;
        self.last_dispatched_volume = Some(volume);
    }

    /// Sets the volume. The call to make is returned unless the native player
    /// takes the command.
    pub fn change_volume(&mut self, env: &PlaybackEnv, volume: u8, out: &mut Outbox) -> (r: Option<
        ApiCall,
    >)
        ensures
            *final(self) == (if old(self).native_is_active(*env) {
                old(self).after_volume_set(volume)
            } else {
                *old(self)
            }),
            final(out)@ == (if old(self).native_is_active(*env) {
                old(out)@.push(EffectView::SetVolume(volume))
            } else {
                old(out)@
            }),
            optional_call(r) == unless_native(
                old(self).native_is_active(*env),
                query_call(
                    ApiMethod::Put,
                    "me/player/volume"@,
                    "volume_percent"@,
                    decimal(volume as nat),
                    None,
                ),
            ),
    {
        if self.takes_natively(env) {
            out.push(Effect::SetVolume(volume));
            self.volume_was_set(volume);
            return None;
        }
        Some(
            ApiCall::new(ApiMethod::Put, "me/player/volume", None).with(
                "volume_percent",
                number_text(volume as u64),
            ),
        )
    }

    /// Takes the answer to a request to set the volume. Where it failed, the
    /// change is given up, and the volume that is reported counts again.
    pub fn change_volume_answered(
        &mut self,
        volume: u8,
        reply: Result<(), String>,
        out: &mut Outbox,
    )
        ensures
            *final(self) == (if reply is Ok {
                old(self).after_volume_set(volume)
            } else {
                old(self).after_volume_refused()
            }),
            final(out)@ == answered_effects(old(out)@, *old(self), reply),
    {
        match reply {
            Ok(_) => {
                self.volume_was_set(volume);
            },
            Err(error) => {
                self.is_volume_change_in_flight = false;
                self.pending_volume = None;
                self.last_dispatched_volume = None;
                self.command_refused(error.as_str(), out);
            },
        }
    }
}

/// While a native player is expected to come up, the want of a device is never
/// shown as an error.
pub proof fn law_no_device_is_no_error_while_pending(
    out: Seq<EffectView>,
    state: PlaybackState,
    error: Seq<char>,
)
    requires
        no_active_device(error),
        state.native_backend_pending,
    ensures
        refused_effects(out, state, error).drop_last() == out,
        !(refused_effects(out, state, error).last() is HandleError),
{
    assert(refused_effects(out, state, error).drop_last() =~= out);
}

/// Where no device is active while a native player is expected, the user is told
/// that streaming reconnects, for five seconds; any other failure of a command
/// is shown as an error, in its own words.
pub proof fn law_how_a_refused_command_is_told(
    state: PlaybackState,
    error: String,
    text: &str,
    suppressed: bool,
    told: &mut Outbox,
    answered: &mut Outbox,
    accepted: &mut Outbox,
)
    requires
        text@ == error@,
        call_ensures(
            PlaybackState::suppressed_no_device_error_while_pending,
            (&state, text, told),
            suppressed,
        ),
        call_ensures(PlaybackState::command_answered, (&state, Err(error), answered), ()),
        call_ensures(PlaybackState::command_answered, (&state, Ok(()), accepted), ()),
    ensures
        suppressed <==> no_active_device(error@) && state.native_backend_pending,
        suppressed ==> {
            let message = EffectView::SetStatusMessage {
                message: "Reconnecting native streaming…"@,
                ttl_secs: 5,
            };
            &&& final(told)@ == old(told)@ + seq![message]
            &&& final(answered)@ == old(answered)@ + seq![message]
        },
        !suppressed ==> {
            &&& final(told)@ == old(told)@
            &&& final(answered)@ == old(answered)@ + seq![EffectView::HandleError(error@)]
        },
        final(accepted)@ == old(accepted)@,
{
}

/// A pause drops a start that waits. The native player pauses where it is the
/// one that plays, which is shown at once; else the Web API is asked to pause,
/// and nothing is shown yet.
pub proof fn law_what_a_pause_does(
    state: &mut PlaybackState,
    env: PlaybackEnv,
    out: &mut Outbox,
    native: bool,
    r: Option<ApiCall>,
)
    requires
        call_ensures(
            PlaybackState::is_native_streaming_active_for_playback,
            (&*old(state), &env),
            native,
        ),
        call_ensures(PlaybackState::pause_playback, (state, &env, out), r),
    ensures
        native ==> {
            &&& r is None
            &&& final(out)@ == old(out)@ + seq![
                EffectView::Pause,
                EffectView::SetNativePlaybackIntent(false),
            ]
            &&& final(state).native_is_playing == Some(false)
            &&& old(state).current_playback_context matches Some(ctx)
                ==> final(state).current_playback_context
                    == Some(PlaybackContext { is_playing: false, ..ctx })
        },
        !native ==> {
            &&& r is Some
            &&& r->0@ == (ApiCallView {
                method: ApiMethod::Put,
                path: "me/player/pause"@,
                query: Seq::empty(),
                body: None,
            })
            &&& final(out)@ == old(out)@
            &&& final(state).native_is_playing == old(state).native_is_playing
            &&& final(state).current_playback_context == old(state).current_playback_context
        },
        old(state).current_playback_context is None
            ==> final(state).current_playback_context is None,
        *final(state) == (PlaybackState {
            pending_start_playback: None,
            native_load_watchdog: None,
            native_is_playing: final(state).native_is_playing,
            current_playback_context: final(state).current_playback_context,
            ..*old(state)
        }),
{
}

/// Steps forward and back drop a start that waits and change nothing else. The
/// native player steps where it is the one that plays, else the Web API is asked
/// to.
pub proof fn law_what_steps_do(
    state: &mut PlaybackState,
    env: PlaybackEnv,
    out: &mut Outbox,
    native: bool,
    r: Option<ApiCall>,
    back: &mut PlaybackState,
    back_out: &mut Outbox,
    back_r: Option<ApiCall>,
)
    requires
        call_ensures(
            PlaybackState::is_native_streaming_active_for_playback,
            (&*old(state), &env),
            native,
        ),
        call_ensures(PlaybackState::next_track, (state, &env, out), r),
        *old(back) == *old(state),
        call_ensures(PlaybackState::previous_track, (back, &env, back_out), back_r),
    ensures
        *final(state) == (PlaybackState {
            pending_start_playback: None,
            native_load_watchdog: None,
            ..*old(state)
        }),
        *final(back) == *final(state),
        native ==> {
            &&& r is None
            &&& back_r is None
            &&& final(out)@ == old(out)@ + seq![EffectView::Next]
            &&& final(back_out)@ == old(back_out)@ + seq![EffectView::Previous]
        },
        !native ==> {
            &&& final(out)@ == old(out)@
            &&& final(back_out)@ == old(back_out)@
            &&& r is Some
            &&& r->0@ == (ApiCallView {
                method: ApiMethod::Post,
                path: "me/player/next"@,
                query: Seq::empty(),
                body: None,
            })
            &&& back_r is Some
            &&& back_r->0@ == (ApiCallView {
                method: ApiMethod::Post,
                path: "me/player/previous"@,
                query: Seq::empty(),
                body: None,
            })
        },
{
}

/// A forced step back is made twice, half a second apart: by the native player
/// where it is the one that plays; else by the Web API, where the second step
/// follows once the first was accepted.
pub proof fn law_what_a_forced_step_back_does(
    state: PlaybackState,
    env: PlaybackEnv,
    out: &mut Outbox,
    native: bool,
    r: Option<ApiCall>,
    accepted: &mut Outbox,
    error: String,
    refused: &mut Outbox,
    answered: &mut Outbox,
)
    requires
        call_ensures(
            PlaybackState::is_native_streaming_active_for_playback,
            (&state, &env),
            native,
        ),
        call_ensures(PlaybackState::force_previous_track, (&state, &env, out), r),
        call_ensures(PlaybackState::force_previous_answered, (&state, Ok(()), accepted), ()),
        call_ensures(PlaybackState::force_previous_answered, (&state, Err(error), refused), ()),
        old(answered)@ == old(refused)@,
        call_ensures(PlaybackState::command_answered, (&state, Err(error), answered), ()),
    ensures
        native ==> r is None && final(out)@ == old(out)@ + seq![
            EffectView::Previous,
            EffectView::PreviousAfter(500),
        ],
        !native ==> {
            &&& final(out)@ == old(out)@
            &&& r is Some
            &&& r->0@ == (ApiCallView {
                method: ApiMethod::Post,
                path: "me/player/previous"@,
                query: Seq::empty(),
                body: None,
            })
        },
        final(accepted)@ == old(accepted)@ + seq![
            EffectView::DispatchAfter { event: IoEventView::PreviousTrack, millis: 500 },
        ],
        final(refused)@ == final(answered)@,
{
}

/// A seek goes to the position that is given: by the native player, where the
/// position is noted for a later restore, or by the Web API.
pub proof fn law_what_a_seek_does(
    state: PlaybackState,
    env: PlaybackEnv,
    position_ms: u32,
    out: &mut Outbox,
    native: bool,
    r: Option<ApiCall>,
)
    requires
        call_ensures(
            PlaybackState::is_native_streaming_active_for_playback,
            (&state, &env),
            native,
        ),
        call_ensures(PlaybackState::seek, (&state, &env, position_ms, out), r),
    ensures
        native ==> r is None && final(out)@ == old(out)@ + seq![
            EffectView::Seek(position_ms),
            EffectView::SetNativeRecoveryPosition(position_ms),
        ],
        !native ==> {
            &&& final(out)@ == old(out)@
            &&& r is Some
            &&& r->0@ == (ApiCallView {
                method: ApiMethod::Put,
                path: "me/player/seek"@,
                query: seq![("position_ms"@, decimal(position_ms as nat))],
                body: None,
            })
        },
{
    assert(Seq::<(Seq<char>, Seq<char>)>::empty().push(
        ("position_ms"@, decimal(position_ms as nat)),
    ) =~= seq![("position_ms"@, decimal(position_ms as nat))]);
}

/// Shuffling becomes what is given: at once on the native player, where it is
/// noted for a later restore; through the Web API once that has accepted it, and
/// not where it has refused.
pub proof fn law_what_shuffling_does(
    state: &mut PlaybackState,
    env: PlaybackEnv,
    shuffle: bool,
    out: &mut Outbox,
    native: bool,
    r: Option<ApiCall>,
    reply: Result<(), String>,
    answered: &mut PlaybackState,
    answered_out: &mut Outbox,
    plain: PlaybackState,
    plain_out: &mut Outbox,
)
    requires
        call_ensures(
            PlaybackState::is_native_streaming_active_for_playback,
            (&*old(state), &env),
            native,
        ),
        call_ensures(PlaybackState::shuffle, (state, &env, shuffle, out), r),
        call_ensures(
            PlaybackState::shuffle_answered,
            (answered, shuffle, reply, answered_out),
            (),
        ),
        plain == *old(answered),
        old(plain_out)@ == old(answered_out)@,
        call_ensures(PlaybackState::command_answered, (&plain, reply, plain_out), ()),
    ensures
        native ==> {
            &&& r is None
            &&& final(out)@ == old(out)@ + seq![
                EffectView::SetShuffle(shuffle),
                EffectView::SetNativeRecoveryShuffle(shuffle),
            ]
            &&& *final(state) == old(state).with_shuffle(shuffle)
        },
        !native ==> {
            &&& *final(state) == *old(state)
            &&& final(out)@ == old(out)@
            &&& r is Some
            &&& r->0@ == (ApiCallView {
                method: ApiMethod::Put,
                path: "me/player/shuffle"@,
                query: seq![("state"@, truth(shuffle))],
                body: None,
            })
        },
        reply is Ok ==> *final(answered) == old(answered).with_shuffle(shuffle),
        reply is Err ==> *final(answered) == *old(answered),
        final(answered_out)@ == final(plain_out)@,
{
    assert(Seq::<(Seq<char>, Seq<char>)>::empty().push(("state"@, truth(shuffle))) =~= seq![
        ("state"@, truth(shuffle)),
    ]);
}

/// Repeating becomes what is given: at once on the native player, where it is
/// noted for a later restore; through the Web API once that has accepted it, and
/// not where it has refused.
pub proof fn law_what_repeating_does(
    state: &mut PlaybackState,
    env: PlaybackEnv,
    repeat: RepeatState,
    out: &mut Outbox,
    native: bool,
    r: Option<ApiCall>,
    reply: Result<(), String>,
    answered: &mut PlaybackState,
    answered_out: &mut Outbox,
    plain: PlaybackState,
    plain_out: &mut Outbox,
)
    requires
        call_ensures(
            PlaybackState::is_native_streaming_active_for_playback,
            (&*old(state), &env),
            native,
        ),
        call_ensures(PlaybackState::repeat, (state, &env, repeat, out), r),
        call_ensures(
            PlaybackState::repeat_answered,
            (answered, repeat, reply, answered_out),
            (),
        ),
        plain == *old(answered),
        old(plain_out)@ == old(answered_out)@,
        call_ensures(PlaybackState::command_answered, (&plain, reply, plain_out), ()),
    ensures
        native ==> {
            &&& r is None
            &&& final(out)@ == old(out)@ + seq![
                EffectView::SetRepeat(repeat),
                EffectView::SetNativeRecoveryRepeat(repeat),
            ]
            &&& *final(state) == old(state).with_repeat(repeat)
        },
        !native ==> {
            &&& *final(state) == *old(state)
            &&& final(out)@ == old(out)@
            &&& r is Some
            &&& r->0@ == (ApiCallView {
                method: ApiMethod::Put,
                path: "me/player/repeat"@,
                query: seq![("state"@, repeat_name(repeat))],
                body: None,
            })
        },
        reply is Ok ==> *final(answered) == old(answered).with_repeat(repeat),
        reply is Err ==> *final(answered) == *old(answered),
        final(answered_out)@ == final(plain_out)@,
{
    assert(Seq::<(Seq<char>, Seq<char>)>::empty().push(("state"@, repeat_name(repeat))) =~= seq![
        ("state"@, repeat_name(repeat)),
    ]);
}

/// The volume becomes what is given: at once on the native player, through the
/// Web API once that has accepted it. Then the change is no longer in flight and
/// counts as dispatched, but it stays in mind until a poll reports it. A refusal
/// gives the change up and leaves what is shown.
pub proof fn law_what_a_volume_does(
    state: &mut PlaybackState,
    env: PlaybackEnv,
    volume: u8,
    out: &mut Outbox,
    native: bool,
    r: Option<ApiCall>,
    reply: Result<(), String>,
    answered: &mut PlaybackState,
    answered_out: &mut Outbox,
    plain: PlaybackState,
    plain_out: &mut Outbox,
)
    requires
        call_ensures(
            PlaybackState::is_native_streaming_active_for_playback,
            (&*old(state), &env),
            native,
        ),
        call_ensures(PlaybackState::change_volume, (state, &env, volume, out), r),
        call_ensures(
            PlaybackState::change_volume_answered,
            (answered, volume, reply, answered_out),
            (),
        ),
        plain == *old(answered),
        old(plain_out)@ == old(answered_out)@,
        call_ensures(PlaybackState::command_answered, (&plain, reply, plain_out), ()),
    ensures
        native ==> {
            &&& r is None
            &&& final(out)@ == old(out)@ + seq![EffectView::SetVolume(volume)]
            &&& *final(state) == (PlaybackState {
                is_volume_change_in_flight: false,
                last_dispatched_volume: Some(volume),
                ..old(state).with_volume(volume)
            })
            &&& final(state).pending_volume == old(state).pending_volume
        },
        !native ==> {
            &&& *final(state) == *old(state)
            &&& final(out)@ == old(out)@
            &&& r is Some
            &&& r->0@ == (ApiCallView {
                method: ApiMethod::Put,
                path: "me/player/volume"@,
                query: seq![("volume_percent"@, decimal(volume as nat))],
                body: None,
            })
        },
        reply is Ok ==> *final(answered) == (PlaybackState {
            is_volume_change_in_flight: false,
            last_dispatched_volume: Some(volume),
            ..old(answered).with_volume(volume)
        }),
        reply is Err ==> *final(answered) == (PlaybackState {
            is_volume_change_in_flight: false,
            pending_volume: None,
            last_dispatched_volume: None,
            ..*old(answered)
        }),
        final(answered_out)@ == final(plain_out)@,
{
    assert(Seq::<(Seq<char>, Seq<char>)>::empty().push(
        ("volume_percent"@, decimal(volume as nat)),
    ) =~= seq![("volume_percent"@, decimal(volume as nat))]);
}

/// A pause that the Web API has accepted is shown; one that it has refused is
/// told of as any refused command, and nothing is shown.
pub proof fn law_what_the_answer_to_a_pause_does(
    state: &mut PlaybackState,
    reply: Result<(), String>,
    out: &mut Outbox,
    plain: PlaybackState,
    plain_out: &mut Outbox,
)
    requires
        call_ensures(PlaybackState::pause_answered, (state, reply, out), ()),
        plain == *old(state),
        old(plain_out)@ == old(out)@,
        call_ensures(PlaybackState::command_answered, (&plain, reply, plain_out), ()),
    ensures
        reply is Ok ==> *final(state) == old(state).with_playing(false),
        reply is Err ==> *final(state) == *old(state),
        final(out)@ == final(plain_out)@,
{
}

} // verus!
