//! How the native device is offered and remembered.

use crate::device::{
    native_idle_device_preference_update, persists, saved_device_matches_native_player,
    NativeDevicePreferenceUpdate,
};
use crate::effects::{Effect, EffectView, Outbox};
use crate::state::{as_slice, NativePlayer, PlaybackEnv, PlaybackState};
use crate::text::{optional_text, same_text};
use vstd::prelude::*;

verus! {

/// The effects of remembering the native device: none where another one is to
/// be kept, or where it is remembered already.
pub open spec fn persist_effects(
    out: Seq<EffectView>,
    saved_device_id: Option<Seq<char>>,
    native_device_id: Seq<char>,
    persist: bool,
) -> Seq<EffectView> {
    if persist && saved_device_id != Some(native_device_id) {
        out.push(EffectView::PersistDeviceId(native_device_id))
    } else {
        out
    }
}

/// Has the native device remembered, unless another one is to be kept or it is
/// remembered already.
pub fn persist_native_device_id_if_needed(
    saved_device_id: Option<&str>,
    out: &mut Outbox,
    native_device_id: &str,
    update: NativeDevicePreferenceUpdate,
)
    ensures
        final(out)@ == persist_effects(
            old(out)@,
            crate::device::chars(saved_device_id),
            native_device_id@,
            update == NativeDevicePreferenceUpdate::Persist,
        ),
{
    match update {
        NativeDevicePreferenceUpdate::KeepExistingPreference => {
            return ;
        },
        NativeDevicePreferenceUpdate::Persist => {},
    }
    if let Some(saved) = saved_device_id {
        if same_text(saved, native_device_id) {
            return ;
        }
    }
    out.push(Effect::PersistDeviceId(native_device_id.to_string()));
}

/// Whether the native device is remembered when a player is used.
pub open spec fn remembers(
    state: PlaybackState,
    env: PlaybackEnv,
    player: NativePlayer,
    explicit_persist: bool,
) -> bool {
    persists(
        optional_text(env.saved_device_id),
        explicit_persist,
        env.spec_saved_is_native(Some(player.device_id@), state.devices, player.device_name@),
    )
}

/// Whether an idle player is offered: it is connected, and no other device was
/// saved.
pub open spec fn offers_idle(state: PlaybackState, env: PlaybackEnv, player: NativePlayer) -> bool {
    player.connected && remembers(state, env, player, false)
}

/// The state after an idle player was offered: an attempt to wake it up counts
/// as an activation.
pub open spec fn after_idle(
    state: PlaybackState,
    env: PlaybackEnv,
    player: NativePlayer,
) -> PlaybackState {
    if offers_idle(state, env, player) {
        PlaybackState {
            native_idle_recovery: state.native_idle_recovery.attempting(env.now),
            last_device_activation: if state.native_idle_recovery.phase.grants(env.now) {
                Some(env.now)
            } else {
                state.last_device_activation
            },
            ..state
        }
    } else {
        state
    }
}

/// The effects of offering an idle player: it is woken up where an attempt is
/// granted, listed, and remembered.
pub open spec fn idle_effects(
    out: Seq<EffectView>,
    state: PlaybackState,
    env: PlaybackEnv,
    player: NativePlayer,
) -> Seq<EffectView> {
    if offers_idle(state, env, player) {
        let woken = if state.native_idle_recovery.phase.grants(env.now) {
            out.push(EffectView::Transfer).push(EffectView::Activate)
        } else {
            out
        };
        persist_effects(
            woken.push(
                EffectView::MarkNativeDeviceAvailable {
                    device_id: player.device_id@,
                    device_name: player.device_name@,
                    volume: player.volume,
                },
            ),
            optional_text(env.saved_device_id),
            player.device_id@,
            true,
        )
    } else {
        out
    }
}

/// Offers the idle native player where Spotify plays nothing: it is listed and
/// remembered, and woken up if that was not tried too often. Nothing happens
/// where it is not connected, or where another device was saved.
pub fn reconcile_native_idle_device_if_preferred(
    state: &mut PlaybackState,
    env: &PlaybackEnv,
    player: &NativePlayer,
    out: &mut Outbox,
)
    ensures
        *final(state) == after_idle(*old(state), *env, *player),
        final(out)@ == idle_effects(old(out)@, *old(state), *env, *player),
{
    if !player.connected {
        return ;
    }
    let saved_device_matches_native = saved_device_matches_native_player(
        as_slice(&env.saved_device_id),
        Some(player.device_id.as_str()),
        &state.devices,
        player.device_name.as_str(),
    );
    let update = match native_idle_device_preference_update(
        as_slice(&env.saved_device_id),
        saved_device_matches_native,
    ) {
        Some(update) => update,
        None => {
            return ;
        },
    };
    if state.native_idle_recovery.should_attempt_idle_recovery(env.now) {
        out.push(Effect::Transfer);
        out.push(Effect::Activate);
        state.last_device_activation = Some(env.now);
    }
    out.push(
        Effect::MarkNativeDeviceAvailable {
            device_id: player.device_id.clone(),
            device_name: player.device_name.clone(),
            volume: player.volume,
        },
    );
    persist_native_device_id_if_needed(
        as_slice(&env.saved_device_id),
        out,
        player.device_id.as_str(),
        update,
    );
}

/// Another device that was saved is left alone while nothing plays: the native
/// player is neither woken up nor offered nor remembered.
pub proof fn law_an_idle_player_keeps_a_saved_external_device(
    out: Seq<EffectView>,
    state: PlaybackState,
    env: PlaybackEnv,
    player: NativePlayer,
)
    requires
        env.saved_device_id is Some,
        !env.spec_saved_is_native(Some(player.device_id@), state.devices, player.device_name@),
    ensures
        after_idle(state, env, player) == state,
        idle_effects(out, state, env, player) == out,
{
}

/// The native device is remembered where that is wanted and it is not remembered
/// yet; else nothing is asked for.
pub proof fn law_when_the_native_device_is_remembered(
    saved: Option<&str>,
    out: &mut Outbox,
    native: &str,
    update: NativeDevicePreferenceUpdate,
)
    requires
        call_ensures(persist_native_device_id_if_needed, (saved, out, native, update), ()),
    ensures
        update == NativeDevicePreferenceUpdate::KeepExistingPreference ==> final(out)@
            == old(out)@,
        saved is Some && saved->0@ == native@ ==> final(out)@ == old(out)@,
        update == NativeDevicePreferenceUpdate::Persist && (saved is None || saved->0@ != native@)
            ==> final(out)@ == old(out)@ + seq![EffectView::PersistDeviceId(native@)],
{
}

/// The native device is remembered when a player is used on request, where none
/// was saved, where the saved one has its identifier, or where the saved one is
/// listed under its name; in no other case.
pub proof fn law_who_is_remembered(
    state: PlaybackState,
    env: PlaybackEnv,
    player: NativePlayer,
    explicit: bool,
)
    ensures
        explicit ==> remembers(state, env, player, explicit),
        env.saved_device_id is None ==> remembers(state, env, player, explicit),
        env.saved_device_id is Some && env.saved_device_id->0@ == player.device_id@ ==> remembers(
            state,
            env,
            player,
            explicit,
        ),
        env.saved_device_id is Some && !explicit ==> (remembers(state, env, player, explicit)
            <==> env.saved_device_id->0@ == player.device_id@ || (state.devices is Some
            && crate::device::lists_named(
            state.devices->0.devices@,
            env.saved_device_id->0@,
            player.device_name@,
        ))),
{
}

/// An idle player that is connected and that no other saved device stands
/// against is listed under its identifier, its name and its volume. Before that
/// it is woken up where an attempt is granted, which then counts as an
/// activation; after that it is remembered where it is not yet. Any other player
/// is left alone.
pub proof fn law_an_idle_player_is_offered(
    state: &mut PlaybackState,
    env: PlaybackEnv,
    player: NativePlayer,
    out: &mut Outbox,
)
    requires
        call_ensures(
            reconcile_native_idle_device_if_preferred,
            (state, &env, &player, out),
            (),
        ),
    ensures
        ({
            let granted = old(state).native_idle_recovery.phase.grants(env.now);
            let offered = player.connected && remembers(*old(state), env, player, false);
            let remembered = env.saved_device_id is Some && env.saved_device_id->0@
                == player.device_id@;
            let woken = if granted {
                seq![EffectView::Transfer, EffectView::Activate]
            } else {
                Seq::empty()
            };
            let listed = seq![
                EffectView::MarkNativeDeviceAvailable {
                    device_id: player.device_id@,
                    device_name: player.device_name@,
                    volume: player.volume,
                },
            ];
            let saved = if remembered {
                Seq::empty()
            } else {
                seq![EffectView::PersistDeviceId(player.device_id@)]
            };
            &&& !offered ==> *final(state) == *old(state) && final(out)@ == old(out)@
            &&& offered ==> final(out)@ == old(out)@ + woken + listed + saved
            &&& offered && granted ==> *final(state) == (PlaybackState {
                native_idle_recovery: old(state).native_idle_recovery.attempting(env.now),
                last_device_activation: Some(env.now),
                ..*old(state)
            })
            &&& offered && !granted ==> *final(state) == *old(state)
        }),
{
}

} // verus!
