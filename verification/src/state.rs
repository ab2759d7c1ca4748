//! The state of playback, and which player a command goes to.

use crate::device::{
    saved_device_matches_native_player, saved_is_native, should_activate_native_for_playback,
    DevicePayload, NativeActivationContext,
};
use crate::effects::KeptRequest;
use crate::items::{Device, PlaybackContext, RepeatState};
use crate::recovery::NativeIdleRecoveryState;
use crate::text::{
    eq_ignore_ascii_case, optional_text, same_ignoring_ascii_case, same_text, to_lowercase,
    unicode_lowered,
};
use crate::time::Moment;
use vstd::prelude::*;

verus! {

/// The nanoseconds for which an activation counts as recent.
pub const RECENT_ACTIVATION: u64 = 5_000_000_000;

/// How many seconds the last poll is dated back to have the next one soon.
pub const POLL_BACKDATE_SECS: u32 = 6;

/// The native player, as far as the rules of playback read it.
#[derive(Debug, PartialEq, Eq)]
pub struct NativePlayer {
    /// What tells this player from those before and after it.
    pub instance: usize,
    pub connected: bool,
    pub available: bool,
    pub device_id: String,
    pub device_name: String,
    pub volume: u8,
}

/// What the rest of the program reports at a step.
#[derive(Debug, PartialEq, Eq)]
pub struct PlaybackEnv {
    pub now: Moment,
    pub player: Option<NativePlayer>,
    /// Whether the native player gave a sign of life lately.
    pub fresh_native_activity: bool,
    /// The device that is remembered across sessions.
    pub saved_device_id: Option<String>,
    /// Which restore of native playback is under way.
    pub restore_generation: Option<u64>,
}

/// What native playback runs through.
#[derive(Clone, Copy, Debug, PartialEq, Eq, Structural)]
pub enum NativePlaybackOrigin {
    Context,
    RawList,
}

/// What the native player says of its track.
#[derive(Debug, PartialEq, Eq)]
pub struct NativeTrackInfo {
    pub name: String,
}

/// A request to start playback that waits for the native player.
#[derive(Debug, PartialEq, Eq)]
pub struct PendingStart {
    pub request: KeptRequest,
    /// How often it was made again already.
    pub recovery_attempts: u8,
}

/// The state of playback.
#[derive(Debug, PartialEq, Eq)]
pub struct PlaybackState {
    pub current_playback_context: Option<PlaybackContext>,
    pub devices: Option<DevicePayload>,
    pub is_streaming_active: bool,
    pub native_activation_pending: bool,
    /// Whether a native player is expected to come up soon.
    pub native_backend_pending: bool,
    pub native_device_id: Option<String>,
    pub native_playback_origin: Option<NativePlaybackOrigin>,
    pub native_is_playing: Option<bool>,
    pub native_track_info: Option<NativeTrackInfo>,
    pub native_load_watchdog: Option<Moment>,
    pub native_idle_recovery: NativeIdleRecoveryState,
    pub last_device_activation: Option<Moment>,
    pub last_track_id: Option<String>,
    pub instant_since_last_current_playback_poll: Moment,
    pub is_fetching_current_playback: bool,
    pub pending_start_playback: Option<PendingStart>,
    pub pending_volume: Option<u8>,
    pub last_dispatched_volume: Option<u8>,
    pub is_volume_change_in_flight: bool,
    pub seek_ms: Option<u128>,
    pub song_progress_ms: u128,
    pub shuffle_enabled: bool,
    pub enable_global_song_count: bool,
    pub status_message: Option<String>,
    pub status_message_expires_at: Option<Moment>,
}

/// The player that a command goes to.
#[derive(Clone, Copy, Debug)]
pub enum PlaybackBackend<'a> {
    Native(&'a NativePlayer),
    /// The Web API, and through it whatever device is active.
    Connect,
}

/// The native player where it is chosen and there is one.
pub open spec fn selected(native: bool, player: Option<NativePlayer>) -> Option<NativePlayer> {
    if native {
        player
    } else {
        None
    }
}

impl<'a> PlaybackBackend<'a> {
    /// The native player, where the command goes to it.
    pub open spec fn player(self) -> Option<NativePlayer> {
        match self {
            PlaybackBackend::Native(player) => Some(*player),
            PlaybackBackend::Connect => None,
        }
    }
}

/// The native player where it is chosen and there is one, else the Web API.
fn select_backend<'a>(native: bool, env: &'a PlaybackEnv) -> (r: PlaybackBackend<'a>)
    ensures
        r.player() == selected(native, env.player),
{
    if native {
        match &env.player {
            Some(player) => PlaybackBackend::Native(player),
            None => PlaybackBackend::Connect,
        }
    } else {
        PlaybackBackend::Connect
    }
}

impl PlaybackEnv {
    /// Whether a poll can be dated back from now.
    pub open spec fn can_backdate(self) -> bool {
        self.now.nanos >= i64::MIN + 6_000_000_000
    }

    /// The moment to which a poll is dated back.
    pub open spec fn spec_backdated_poll(self) -> Moment {
        Moment { nanos: (self.now.nanos - 6_000_000_000) as i64 }
    }

    /// The moment to which a poll is dated back.
    pub(crate) fn backdated_poll(&self) -> (r: Moment)
        requires
            self.can_backdate(),
        ensures
            r == self.spec_backdated_poll(),
    {
        self.now.before(POLL_BACKDATE_SECS)
    }

    /// What is reported where no native player is built in.
    pub open spec fn spec_without_player(now: Moment) -> PlaybackEnv {
        PlaybackEnv {
            now,
            player: None,
            fresh_native_activity: false,
            saved_device_id: None,
            restore_generation: None,
        }
    }

    /// What is reported where no native player is built in.
    pub fn without_player(now: Moment) -> (r: PlaybackEnv)
        ensures
            r == PlaybackEnv::spec_without_player(now),
    {
        PlaybackEnv {
            now,
            player: None,
            fresh_native_activity: false,
            saved_device_id: None,
            restore_generation: None,
        }
    }

    /// Whether there is a native player that can play.
    pub open spec fn player_available(self) -> bool {
        self.player is Some && self.player->0.available
    }

    /// Whether the saved device is the native one, where that has the
    /// identifier `native_device_id`.
    pub open spec fn spec_saved_is_native(
        self,
        native_device_id: Option<Seq<char>>,
        devices: Option<DevicePayload>,
        native_name: Seq<char>,
    ) -> bool {
        saved_is_native(optional_text(self.saved_device_id), native_device_id, devices, native_name)
    }
}

/// An optional text as a string slice.
pub(crate) fn as_slice(text: &Option<String>) -> (r: Option<&str>)
    ensures
        crate::device::chars(r) == optional_text(*text),
{
    match text {
        Some(t) => Some(t.as_str()),
        None => None,
    }
}

/// Whether a list holds a device with an identifier and a name, case aside.
pub open spec fn lists_lowered(devices: Seq<Device>, id: Seq<char>, name: Seq<char>) -> bool {
    exists|i: int|
        0 <= i < devices.len() && (#[trigger] devices[i]).spec_has_id(id) && unicode_lowered(
            devices[i].name@,
        ) == unicode_lowered(name)
}

fn payload_lists_lowered(payload: &DevicePayload, id: &str, name: &str) -> (r: bool)
    ensures
        r == lists_lowered(payload.devices@, id@, name@),
{
    let lowered = to_lowercase(name);
    for i in 0..payload.devices.len()
        invariant
            lowered@ == unicode_lowered(name@),
            forall|j: int|
                0 <= j < i ==> !((#[trigger] payload.devices@[j]).spec_has_id(id@)
                    && unicode_lowered(payload.devices@[j].name@) == unicode_lowered(name@)),
    {
        if payload.devices[i].has_id(id) {
            let own = to_lowercase(payload.devices[i].name.as_str());
            if same_text(own.as_str(), lowered.as_str()) {
                return true;
            }
        }
    }
    false
}

/// Whether a device has the name of the native player, case aside.
pub(crate) fn has_native_name(device: &Device, player: &NativePlayer) -> (r: bool)
    ensures
        r == (unicode_lowered(device.name@) == unicode_lowered(player.device_name@)),
{
    let own = to_lowercase(device.name.as_str());
    let native = to_lowercase(player.device_name.as_str());
    same_text(own.as_str(), native.as_str())
}

impl PlaybackState {
    /// Whether the native player was activated within the last moments.
    pub open spec fn recently_activated(self, now: Moment) -> bool {
        &&& self.last_device_activation is Some
        &&& now.spec_nanos_since(self.last_device_activation->0) < RECENT_ACTIVATION
    }

    /// Whether the native player was activated within the last moments.
    pub(crate) fn is_recently_activated(&self, now: Moment) -> (r: bool)
        ensures
            r == self.recently_activated(now),
    {
        match self.last_device_activation {
            Some(moment) => now.nanos_since(moment) < RECENT_ACTIVATION,
            None => false,
        }
    }

    /// Whether a device has the identifier that the native one is known by.
    pub open spec fn known_as_native(self, device: Device) -> bool {
        &&& self.native_device_id is Some
        &&& device.spec_has_id(self.native_device_id->0@)
    }

    /// Whether the native player is the one that plays: Spotify plays on its
    /// device, or on one of its name while it shows signs of life, or it was
    /// activated a moment ago. Until Spotify has reported a device, the last
    /// choice counts.
    pub open spec fn native_is_active(self, env: PlaybackEnv) -> bool {
        &&& env.player_available()
        &&& match self.current_playback_context {
            None => self.is_streaming_active,
            Some(ctx) => {
                ||| self.known_as_native(ctx.device)
                ||| unicode_lowered(ctx.device.name@) == unicode_lowered(
                    env.player->0.device_name@,
                ) && env.fresh_native_activity
                ||| self.is_streaming_active && self.recently_activated(env.now)
            },
        }
    }

    /// What decides whether playback activates the native player.
    pub open spec fn activation_context(self, env: PlaybackEnv) -> NativeActivationContext {
        let name = env.player->0.device_name@;
        let device = match self.current_playback_context {
            Some(ctx) => Some(ctx.device),
            None => None,
        };
        NativeActivationContext {
            player_connected: env.player_available(),
            current_device_id_present: device is Some && device->0.id is Some,
            current_device_is_confirmed_native: device is Some && self.known_as_native(device->0),
            current_device_name_matches_native: device is Some && same_ignoring_ascii_case(
                device->0.name@,
                name,
            ),
            native_has_fresh_activity: env.fresh_native_activity,
            saved_device_matches_native: env.spec_saved_is_native(
                optional_text(self.native_device_id),
                self.devices,
                name,
            ),
            saved_external_confirmed_available: env.saved_device_id is Some && self.devices is Some
                && crate::device::lists_other(
                self.devices->0.devices@,
                env.saved_device_id->0@,
                name,
            ),
        }
    }

    /// Whether a device has the identifier that the native one is known by.
    fn is_known_as_native(&self, device: &Device) -> (r: bool)
        ensures
            r == self.known_as_native(*device),
    {
        match &self.native_device_id {
            Some(native_id) => device.has_id(native_id.as_str()),
            None => false,
        }
    }

    /// Whether the native player is the one that plays.
    pub fn is_native_streaming_active_for_playback(&self, env: &PlaybackEnv) -> (r: bool)
        ensures
            r == self.native_is_active(*env),
    {
        match &env.player {
            Some(player) => {
                if !player.available {
                    return false;
                }
                match &self.current_playback_context {
                    None => self.is_streaming_active,
                    Some(ctx) => {
                        if self.is_known_as_native(&ctx.device) {
                            return true;
                        }
                        if has_native_name(&ctx.device, player) && env.fresh_native_activity {
                            return true;
                        }
                        self.is_streaming_active && self.is_recently_activated(env.now)
                    },
                }
            },
            None => false,
        }
    }

    /// Whether playback activates the native player.
    pub fn should_activate_native_streaming_for_playback(&self, env: &PlaybackEnv) -> (r: bool)
        ensures
            r == self.activation_context(*env).activates(),
    {
        let player = match &env.player {
            Some(player) => player,
            None => {
                return false;
            },
        };
        if !player.available {
            return false;
        }
        let name = player.device_name.as_str();
        let mut context = NativeActivationContext::default();
        context.player_connected = true;
        context.native_has_fresh_activity = env.fresh_native_activity;
        if let Some(ctx) = &self.current_playback_context {
            context.current_device_id_present = ctx.device.id.is_some();
            context.current_device_is_confirmed_native = self.is_known_as_native(&ctx.device);
            context.current_device_name_matches_native = eq_ignore_ascii_case(
                ctx.device.name.as_str(),
                name,
            );
        }
        context.saved_device_matches_native = saved_device_matches_native_player(
            as_slice(&env.saved_device_id),
            as_slice(&self.native_device_id),
            &self.devices,
            name,
        );
        if let Some(saved) = &env.saved_device_id {
            if let Some(payload) = &self.devices {
                context.saved_external_confirmed_available = payload.lists_other(
                    saved.as_str(),
                    name,
                );
            }
        }
        assert(context == self.activation_context(*env));
        should_activate_native_for_playback(context)
    }

    /// The player that a command on running playback goes to: the native one
    /// where it is the one that plays.
    pub fn symmetric_playback_backend<'a>(&self, env: &'a PlaybackEnv) -> (r: PlaybackBackend<'a>)
        ensures
            r.player() == selected(self.native_is_active(*env), env.player),
    {
        select_backend(self.is_native_streaming_active_for_playback(env), env)
    }

    /// Whether playback is started on the native player.
    pub open spec fn starts_natively(self, env: PlaybackEnv) -> bool {
        self.native_is_active(env) || self.activation_context(env).activates()
    }

    /// The player on which playback is started: the native one where it is the
    /// one that plays, or where playback activates it.
    pub fn start_playback_backend<'a>(&self, env: &'a PlaybackEnv) -> (r: PlaybackBackend<'a>)
        ensures
            r.player() == selected(self.starts_natively(*env), env.player),
    {
        let native = self.is_native_streaming_active_for_playback(env)
            || self.should_activate_native_streaming_for_playback(env);
        select_backend(native, env)
    }

    /// Whether a device is the native one: it is listed under the name of the
    /// native player, or has the identifier that the native one is known by.
    pub open spec fn is_native_target(self, env: PlaybackEnv, device_id: Seq<char>) -> bool {
        &&& env.player is Some
        &&& {
            ||| self.devices is Some && lists_lowered(
                self.devices->0.devices@,
                device_id,
                env.player->0.device_name@,
            )
            ||| optional_text(self.native_device_id) == Some(device_id)
        }
    }

    /// The player to which playback is transferred: the native one where the
    /// device is its own.
    pub fn transfer_playback_backend<'a>(&self, env: &'a PlaybackEnv, device_id: &str) -> (r:
        PlaybackBackend<'a>)
        ensures
            r.player() == selected(self.is_native_target(*env, device_id@), env.player),
    {
        let native = match &env.player {
            Some(player) => {
                let listed = match &self.devices {
                    Some(payload) => payload_lists_lowered(
                        payload,
                        device_id,
                        player.device_name.as_str(),
                    ),
                    None => false,
                };
                listed || match &self.native_device_id {
                    Some(native_id) => same_text(native_id.as_str(), device_id),
                    None => false,
                }
            },
            None => false,
        };
        select_backend(native, env)
    }

    /// The state with playback running or not, where any is known.
    pub open spec fn with_playing(self, is_playing: bool) -> Self {
        PlaybackState {
            current_playback_context: match self.current_playback_context {
                Some(ctx) => Some(PlaybackContext { is_playing, ..ctx }),
                None => None,
            },
            ..self
        }
    }

    /// The state with playback shuffled or not, where any is known.
    pub open spec fn with_shuffle(self, shuffle_state: bool) -> Self {
        PlaybackState {
            current_playback_context: match self.current_playback_context {
                Some(ctx) => Some(PlaybackContext { shuffle_state, ..ctx }),
                None => None,
            },
            ..self
        }
    }

    /// The state with playback repeated so, where any is known.
    pub open spec fn with_repeat(self, repeat_state: RepeatState) -> Self {
        PlaybackState {
            current_playback_context: match self.current_playback_context {
                Some(ctx) => Some(PlaybackContext { repeat_state, ..ctx }),
                None => None,
            },
            ..self
        }
    }

    /// The state with playback at a volume, where any is known.
    pub open spec fn with_volume(self, volume: u8) -> Self {
        PlaybackState {
            current_playback_context: match self.current_playback_context {
                Some(ctx) => Some(
                    PlaybackContext {
                        device: Device { volume_percent: Some(volume as u32), ..ctx.device },
                        ..ctx
                    },
                ),
                None => None,
            },
            ..self
        }
    }

    pub(crate) fn set_playing(&mut self, is_playing: bool)
        ensures
            *final(self) == old(self).with_playing(is_playing),
    {
        if let Some(ctx) = &mut self.current_playback_context {
            ctx.is_playing = is_playing;
        }
    }

    pub(crate) fn set_shuffle(&mut self, shuffle_state: bool)
        ensures
            *final(self) == old(self).with_shuffle(shuffle_state),
    {
        if let Some(ctx) = &mut self.current_playback_context {
            ctx.shuffle_state = shuffle_state;
        }
    }

    pub(crate) fn set_repeat(&mut self, repeat_state: RepeatState)
        ensures
            *final(self) == old(self).with_repeat(repeat_state),
    {
        if let Some(ctx) = &mut self.current_playback_context {
            ctx.repeat_state = repeat_state;
        }
    }

    pub(crate) fn set_volume(&mut self, volume: u8)
        ensures
            *final(self) == old(self).with_volume(volume),
    {
        if let Some(ctx) = &mut self.current_playback_context {
            ctx.device.volume_percent = Some(volume as u32);
        }
    }
}

/// Commands go to the native player wherever that can play and Spotify plays on
/// the device that the native one is known by, whatever was chosen or activated
/// before; likewise on a device of its name while it gives signs of life, and
/// right after it was activated by choice. Before Spotify has reported any
/// playback the choice counts. In every other case they go to the Web API.
pub proof fn law_who_takes_commands(state: PlaybackState, env: PlaybackEnv, r: bool)
    requires
        call_ensures(PlaybackState::is_native_streaming_active_for_playback, (&state, &env), r),
    ensures
        env.player is None ==> !r,
        env.player is Some && !env.player->0.available ==> !r,
        env.player is Some && env.player->0.available ==> {
            &&& state.current_playback_context is None ==> r == state.is_streaming_active
            &&& state.current_playback_context matches Some(ctx) ==> {
                let by_id = ctx.device.id is Some && state.native_device_id is Some
                    && ctx.device.id->0@ == state.native_device_id->0@;
                let by_name = unicode_lowered(ctx.device.name@) == unicode_lowered(
                    env.player->0.device_name@,
                ) && env.fresh_native_activity;
                let by_choice = state.is_streaming_active && state.last_device_activation is Some
                    && env.now.nanos - state.last_device_activation->0.nanos < 5_000_000_000;
                &&& by_id ==> r
                &&& by_name ==> r
                &&& by_choice ==> r
                &&& !by_id && !by_name && !by_choice ==> !r
            }
        },
        state.native_is_active(env) == r,
{
}

/// The native player takes a command exactly where it is the one that plays, a
/// start also where playback activates it, and a transfer where the device is
/// its own. What takes it is the player that there is.
pub proof fn law_who_takes_what(
    state: PlaybackState,
    env: PlaybackEnv,
    device_id: &str,
    active: bool,
    activates: bool,
    symmetric: PlaybackBackend<'static>,
    start: PlaybackBackend<'static>,
    transfer: PlaybackBackend<'static>,
)
    requires
        call_ensures(
            PlaybackState::is_native_streaming_active_for_playback,
            (&state, &env),
            active,
        ),
        call_ensures(
            PlaybackState::should_activate_native_streaming_for_playback,
            (&state, &env),
            activates,
        ),
        call_ensures(PlaybackState::symmetric_playback_backend, (&state, &env), symmetric),
        call_ensures(PlaybackState::start_playback_backend, (&state, &env), start),
        call_ensures(
            PlaybackState::transfer_playback_backend,
            (&state, &env, device_id),
            transfer,
        ),
    ensures
        symmetric is Native <==> active,
        start is Native <==> active || activates,
        transfer is Native <==> state.is_native_target(env, device_id@),
        symmetric matches PlaybackBackend::Native(player) ==> Some(*player) == env.player,
        start matches PlaybackBackend::Native(player) ==> Some(*player) == env.player,
        transfer matches PlaybackBackend::Native(player) ==> Some(*player) == env.player,
        state.starts_natively(env) == (active || activates),
{
}

/// What decides whether playback activates the native player is read from the
/// state: whether the player can play, which device Spotify plays on and whether
/// it is or is called the native one, and which device was saved.
pub proof fn law_what_decides_on_the_native_player(
    state: PlaybackState,
    env: PlaybackEnv,
    activates: bool,
)
    requires
        call_ensures(
            PlaybackState::should_activate_native_streaming_for_playback,
            (&state, &env),
            activates,
        ),
    ensures
        env.player is None || !env.player->0.available ==> !activates,
        env.player is Some && env.player->0.available ==> {
            let name = env.player->0.device_name@;
            let saved_is_native = env.saved_device_id is Some && ((state.native_device_id is Some
                && state.native_device_id->0@ == env.saved_device_id->0@) || (
            state.devices is Some && crate::device::lists_named(
                state.devices->0.devices@,
                env.saved_device_id->0@,
                name,
            )));
            let saved_elsewhere = env.saved_device_id is Some && state.devices is Some
                && crate::device::lists_other(
                state.devices->0.devices@,
                env.saved_device_id->0@,
                name,
            );
            &&& saved_elsewhere && !saved_is_native ==> !activates
            &&& state.current_playback_context is None && (saved_is_native || !saved_elsewhere)
                ==> activates
            &&& state.current_playback_context matches Some(ctx) ==> {
                let by_id = ctx.device.id is Some && state.native_device_id is Some
                    && ctx.device.id->0@ == state.native_device_id->0@;
                let named = same_ignoring_ascii_case(ctx.device.name@, name);
                &&& ctx.device.id is Some && !by_id && !named ==> !activates
                &&& ctx.device.id is Some && !by_id && env.fresh_native_activity ==> !activates
                &&& (ctx.device.id is None || by_id || (named && !env.fresh_native_activity)) && (
                saved_is_native || !saved_elsewhere) ==> activates
            }
        },
{
}

/// A device is the native player's own exactly where there is a player and the
/// device is listed under its name, case aside, or has the identifier that the
/// native one is known by.
pub proof fn law_which_device_is_native(
    state: PlaybackState,
    env: PlaybackEnv,
    device_id: Seq<char>,
)
    ensures
        env.player is None ==> !state.is_native_target(env, device_id),
        env.player is Some && state.native_device_id is Some && state.native_device_id->0@
            == device_id ==> state.is_native_target(env, device_id),
        env.player is Some && state.devices is Some && lists_lowered(
            state.devices->0.devices@,
            device_id,
            env.player->0.device_name@,
        ) ==> state.is_native_target(env, device_id),
        (state.native_device_id is None || state.native_device_id->0@ != device_id) && (
        state.devices is None || !lists_lowered(
            state.devices->0.devices@,
            device_id,
            env.player->0.device_name@,
        )) ==> !state.is_native_target(env, device_id),
{
}

/// A list of devices is searched as a whole by identifier and name, case aside.
pub proof fn law_every_listed_device_may_be_native(
    devices: Seq<Device>,
    device: Device,
    id: Seq<char>,
    name: Seq<char>,
)
    ensures
        !lists_lowered(Seq::empty(), id, name),
        lists_lowered(devices.push(device), id, name) <==> lists_lowered(devices, id, name) || (
        device.spec_has_id(id) && unicode_lowered(device.name@) == unicode_lowered(name)),
{
    let more = devices.push(device);
    assert(more[devices.len() as int] == device);
    if lists_lowered(devices, id, name) {
        let i = choose|i: int|
            0 <= i < devices.len() && (#[trigger] devices[i]).spec_has_id(id) && unicode_lowered(
                devices[i].name@,
            ) == unicode_lowered(name);
        assert(more[i] == devices[i]);
    }
    if lists_lowered(more, id, name) {
        let i = choose|i: int|
            0 <= i < more.len() && (#[trigger] more[i]).spec_has_id(id) && unicode_lowered(
                more[i].name@,
            ) == unicode_lowered(name);
        assert(i < devices.len() ==> more[i] == devices[i]);
    }
}

/// A poll is dated back by six seconds, and an activation is recent for five.
pub proof fn law_how_long_things_count(state: PlaybackState, env: PlaybackEnv)
    ensures
        env.can_backdate() ==> env.spec_backdated_poll().nanos + 6_000_000_000 == env.now.nanos,
        env.can_backdate() <==> env.now.nanos - 6_000_000_000 >= i64::MIN,
        state.last_device_activation is None ==> !state.recently_activated(env.now),
        state.last_device_activation matches Some(at) ==> (state.recently_activated(env.now)
            <==> env.now.nanos - at.nanos < 5_000_000_000),
{
}

/// A change of what is shown of playback changes what is given of it: playing,
/// shuffling, repeating or the volume, and nothing else that is shown.
pub proof fn law_what_is_shown_changes_alone(
    state: PlaybackState,
    is_playing: bool,
    shuffle: bool,
    repeat: RepeatState,
    volume: u8,
)
    ensures
        state.current_playback_context matches Some(ctx) ==> {
            let device = Device { volume_percent: Some(volume as u32), ..ctx.device };
            &&& state.with_playing(is_playing).current_playback_context == Some(
                PlaybackContext { is_playing, ..ctx },
            )
            &&& state.with_shuffle(shuffle).current_playback_context == Some(
                PlaybackContext { shuffle_state: shuffle, ..ctx },
            )
            &&& state.with_repeat(repeat).current_playback_context == Some(
                PlaybackContext { repeat_state: repeat, ..ctx },
            )
            &&& state.with_volume(volume).current_playback_context == Some(
                PlaybackContext { device, ..ctx },
            )
        },
{
}

/// A change of what is shown leaves the rest of the state as it is, and all of
/// it where nothing is shown.
pub proof fn law_a_change_of_what_is_shown_changes_no_more(
    state: PlaybackState,
    is_playing: bool,
    shuffle: bool,
    repeat: RepeatState,
    volume: u8,
)
    ensures
        state.current_playback_context is None ==> {
            &&& state.with_playing(is_playing) == state
            &&& state.with_shuffle(shuffle) == state
            &&& state.with_repeat(repeat) == state
            &&& state.with_volume(volume) == state
        },
        state.with_playing(is_playing) == (PlaybackState {
            current_playback_context: state.with_playing(is_playing).current_playback_context,
            ..state
        }),
        state.with_shuffle(shuffle) == (PlaybackState {
            current_playback_context: state.with_shuffle(shuffle).current_playback_context,
            ..state
        }),
        state.with_repeat(repeat) == (PlaybackState {
            current_playback_context: state.with_repeat(repeat).current_playback_context,
            ..state
        }),
        state.with_volume(volume) == (PlaybackState {
            current_playback_context: state.with_volume(volume).current_playback_context,
            ..state
        }),
{
}

/// Where no native player is built in, none is reported, and nothing of one; the
/// moment is the one that is given.
pub proof fn law_what_is_reported_without_a_player(now: Moment, r: PlaybackEnv)
    requires
        call_ensures(PlaybackEnv::without_player, (now,), r),
    ensures
        r.now == now,
        r.player is None,
        !r.fresh_native_activity,
        r.saved_device_id is None,
        r.restore_generation is None,
{
}

/// Wherever a player can play and Spotify plays on the device that the native one
/// is known by, or on one of its name while it gives signs of life, the native
/// player is the one that plays, whatever was chosen or activated before.
pub proof fn law_the_native_device_is_native(state: PlaybackState, env: PlaybackEnv)
    requires
        env.player is Some,
        env.player->0.available,
        state.current_playback_context is Some,
        ({
            let device = state.current_playback_context->0.device;
            ||| device.id is Some && state.native_device_id is Some && device.id->0@
                == state.native_device_id->0@
            ||| env.fresh_native_activity && unicode_lowered(device.name@) == unicode_lowered(
                env.player->0.device_name@,
            )
        }),
    ensures
        state.native_is_active(env),
        state.starts_natively(env),
{
}

} // verus!
