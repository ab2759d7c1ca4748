use playback::effects::{ApiCall, ApiMethod, Effect, IoEvent, KeptRequest, Outbox};
use playback::items::{Device, PlaybackContext, RepeatState};
use playback::recovery::NativeIdleRecoveryState;
use playback::state::{NativePlayer, PendingStart, PlaybackBackend, PlaybackEnv, PlaybackState};
use playback::time::Moment;

fn at(secs: i64) -> Moment {
    Moment { nanos: secs * 1_000_000_000 }
}

fn state() -> PlaybackState {
    PlaybackState {
        current_playback_context: None,
        devices: None,
        is_streaming_active: false,
        native_activation_pending: false,
        native_backend_pending: false,
        native_device_id: None,
        native_playback_origin: None,
        native_is_playing: None,
        native_track_info: None,
        native_load_watchdog: None,
        native_idle_recovery: NativeIdleRecoveryState::default(),
        last_device_activation: None,
        last_track_id: None,
        instant_since_last_current_playback_poll: at(0),
        is_fetching_current_playback: true,
        pending_start_playback: None,
        pending_volume: None,
        last_dispatched_volume: None,
        is_volume_change_in_flight: false,
        seek_ms: None,
        song_progress_ms: 0,
        shuffle_enabled: false,
        enable_global_song_count: false,
        status_message: None,
        status_message_expires_at: None,
    }
}

fn player() -> NativePlayer {
    NativePlayer {
        instance: 1,
        connected: true,
        available: true,
        device_id: "native".to_string(),
        device_name: "spotatui".to_string(),
        volume: 40,
    }
}

fn env(now: i64, player: Option<NativePlayer>) -> PlaybackEnv {
    PlaybackEnv {
        now: at(now),
        player,
        fresh_native_activity: false,
        saved_device_id: None,
        restore_generation: None,
    }
}

fn device(id: &str, name: &str) -> Device {
    Device { id: Some(id.to_string()), name: name.to_string(), volume_percent: Some(50) }
}

fn context(id: &str, name: &str) -> PlaybackContext {
    PlaybackContext {
        device: device(id, name),
        shuffle_state: false,
        repeat_state: RepeatState::Off,
        is_playing: true,
        item: None,
        has_context: false,
        progress_ms: None,
    }
}

fn native_state() -> PlaybackState {
    let mut app = state();
    app.native_device_id = Some("native".to_string());
    app.current_playback_context = Some(context("native", "spotatui"));
    app.native_load_watchdog = Some(at(1));
    app.pending_start_playback = Some(PendingStart {
        request: KeptRequest { context_uri: None, uris: None, offset: None },
        recovery_attempts: 1,
    });
    app
}

fn remote_state() -> PlaybackState {
    let mut app = native_state();
    app.current_playback_context = Some(context("phone", "Phone"));
    app
}

fn plain(method: ApiMethod, path: &'static str) -> Option<ApiCall> {
    Some(ApiCall { method, path, query: Vec::new(), body: None })
}

fn query(path: &'static str, key: &'static str, value: &str) -> Option<ApiCall> {
    Some(ApiCall {
        method: ApiMethod::Put,
        path,
        query: vec![(key, value.to_string())],
        body: None,
    })
}

fn is_native(app: &PlaybackState, env: &PlaybackEnv) -> bool {
    matches!(app.symmetric_playback_backend(env), PlaybackBackend::Native(p) if p.instance == 1)
}

#[test]
fn a_command_goes_to_the_native_device_by_its_identifier() {
    assert!(is_native(&native_state(), &env(1, Some(player()))));
    assert!(!is_native(&native_state(), &env(1, None)));
    assert!(!is_native(&remote_state(), &env(1, Some(player()))));
    let mut gone = player();
    gone.available = false;
    assert!(!is_native(&native_state(), &env(1, Some(gone))));
}

#[test]
fn a_command_goes_to_the_native_name_only_with_signs_of_life() {
    let mut app = state();
    app.current_playback_context = Some(context("stale", "SPOTATUI"));
    let mut ears = env(1, Some(player()));
    assert!(!is_native(&app, &ears));
    ears.fresh_native_activity = true;
    assert!(is_native(&app, &ears));
}

#[test]
fn names_are_compared_beyond_ascii() {
    let mut app = state();
    app.current_playback_context = Some(context("stale", "ÄTHER"));
    let mut native = player();
    native.device_name = "äther".to_string();
    let mut ears = env(1, Some(native));
    ears.fresh_native_activity = true;
    assert!(is_native(&app, &ears));
}

#[test]
fn a_choice_counts_for_five_seconds() {
    let mut app = state();
    app.is_streaming_active = true;
    app.last_device_activation = Some(at(10));
    app.current_playback_context = Some(context("phone", "Phone"));
    assert!(is_native(&app, &env(14, Some(player()))));
    assert!(!is_native(&app, &env(15, Some(player()))));
    app.current_playback_context = None;
    assert!(is_native(&app, &env(100, Some(player()))));
    app.is_streaming_active = false;
    assert!(!is_native(&app, &env(11, Some(player()))));
}

#[test]
fn pause_is_taken_by_the_native_player() {
    let mut app = native_state();
    let mut out = Outbox::new();
    assert_eq!(app.pause_playback(&env(2, Some(player())), &mut out), None);
    assert_eq!(out.effects, vec![Effect::Pause, Effect::SetNativePlaybackIntent(false)]);
    assert_eq!(app.native_is_playing, Some(false));
    assert!(!app.current_playback_context.as_ref().unwrap().is_playing);
    assert_eq!(app.pending_start_playback, None);
    assert_eq!(app.native_load_watchdog, None);
}

#[test]
fn pause_goes_to_the_web_api() {
    let mut app = remote_state();
    let mut out = Outbox::new();
    assert_eq!(
        app.pause_playback(&env(2, Some(player())), &mut out),
        plain(ApiMethod::Put, "me/player/pause")
    );
    assert_eq!(app.pending_start_playback, None);
    assert!(app.current_playback_context.as_ref().unwrap().is_playing);
    app.pause_answered(Ok(()), &mut out);
    assert!(!app.current_playback_context.as_ref().unwrap().is_playing);
    assert!(out.effects.is_empty());
    app.pause_answered(Err("broken".to_string()), &mut out);
    assert_eq!(out.effects, vec![Effect::HandleError("broken".to_string())]);
}

#[test]
fn steps_forward_and_back_drop_a_waiting_start() {
    let mut app = native_state();
    let mut out = Outbox::new();
    assert_eq!(app.next_track(&env(2, Some(player())), &mut out), None);
    assert_eq!(app.pending_start_playback, None);
    let mut app = native_state();
    assert_eq!(app.previous_track(&env(2, Some(player())), &mut out), None);
    assert_eq!(app.native_load_watchdog, None);
    assert_eq!(out.effects, vec![Effect::Next, Effect::Previous]);

    let mut app = remote_state();
    let mut out = Outbox::new();
    assert_eq!(
        app.next_track(&env(2, None), &mut out),
        plain(ApiMethod::Post, "me/player/next")
    );
    assert_eq!(
        app.previous_track(&env(2, None), &mut out),
        plain(ApiMethod::Post, "me/player/previous")
    );
    app.command_answered(Ok(()), &mut out);
    assert!(out.effects.is_empty());
    assert_eq!(app.pending_start_playback, None);
}

#[test]
fn a_forced_step_back_is_made_twice() {
    let mut out = Outbox::new();
    assert_eq!(native_state().force_previous_track(&env(2, Some(player())), &mut out), None);
    assert_eq!(out.effects, vec![Effect::Previous, Effect::PreviousAfter(500)]);

    let app = remote_state();
    let mut out = Outbox::new();
    assert_eq!(
        app.force_previous_track(&env(2, None), &mut out),
        plain(ApiMethod::Post, "me/player/previous")
    );
    app.force_previous_answered(Ok(()), &mut out);
    assert_eq!(
        out.effects,
        vec![Effect::DispatchAfter { event: IoEvent::PreviousTrack, millis: 500 }]
    );
    let mut out = Outbox::new();
    app.force_previous_answered(Err("broken".to_string()), &mut out);
    assert_eq!(out.effects, vec![Effect::HandleError("broken".to_string())]);
    assert!(app.pending_start_playback.is_some());
}

#[test]
fn seek_names_the_position_in_decimal() {
    let mut out = Outbox::new();
    assert_eq!(
        remote_state().seek(&env(2, None), 42_000, &mut out),
        query("me/player/seek", "position_ms", "42000")
    );
    assert_eq!(
        remote_state().seek(&env(2, None), 0, &mut out),
        query("me/player/seek", "position_ms", "0")
    );
    assert_eq!(
        remote_state().seek(&env(2, None), u32::MAX, &mut out),
        query("me/player/seek", "position_ms", "4294967295")
    );
    assert!(out.effects.is_empty());
    assert_eq!(native_state().seek(&env(2, Some(player())), 5, &mut out), None);
    assert_eq!(out.effects, vec![Effect::Seek(5), Effect::SetNativeRecoveryPosition(5)]);
}

#[test]
fn shuffle_is_shown_once_it_was_accepted() {
    let mut app = native_state();
    let mut out = Outbox::new();
    assert_eq!(app.shuffle(&env(2, Some(player())), true, &mut out), None);
    assert_eq!(
        out.effects,
        vec![Effect::SetShuffle(true), Effect::SetNativeRecoveryShuffle(true)]
    );
    assert!(app.current_playback_context.as_ref().unwrap().shuffle_state);

    let mut app = remote_state();
    let mut out = Outbox::new();
    assert_eq!(
        app.shuffle(&env(2, None), true, &mut out),
        query("me/player/shuffle", "state", "true")
    );
    assert_eq!(
        app.shuffle(&env(2, None), false, &mut out),
        query("me/player/shuffle", "state", "false")
    );
    assert_eq!(app, remote_state());
    app.shuffle_answered(true, Err("broken".to_string()), &mut out);
    assert_eq!(app, remote_state());
    app.shuffle_answered(true, Ok(()), &mut out);
    assert!(app.current_playback_context.as_ref().unwrap().shuffle_state);
    assert_eq!(out.effects, vec![Effect::HandleError("broken".to_string())]);
}

#[test]
fn repeat_states_have_names() {
    let mut app = remote_state();
    let mut out = Outbox::new();
    for (repeat, name) in [
        (RepeatState::Off, "off"),
        (RepeatState::Track, "track"),
        (RepeatState::Context, "context"),
    ] {
        assert_eq!(
            app.repeat(&env(2, None), repeat, &mut out),
            query("me/player/repeat", "state", name)
        );
        app.repeat_answered(repeat, Ok(()), &mut out);
        assert_eq!(app.current_playback_context.as_ref().unwrap().repeat_state, repeat);
    }
    assert!(out.effects.is_empty());
    app.repeat_answered(RepeatState::Off, Err("broken".to_string()), &mut out);
    assert_eq!(
        app.current_playback_context.as_ref().unwrap().repeat_state,
        RepeatState::Context
    );

    let mut app = native_state();
    let mut out = Outbox::new();
    assert_eq!(app.repeat(&env(2, Some(player())), RepeatState::Track, &mut out), None);
    assert_eq!(
        out.effects,
        vec![
            Effect::SetRepeat(RepeatState::Track),
            Effect::SetNativeRecoveryRepeat(RepeatState::Track),
        ]
    );
    assert_eq!(
        app.current_playback_context.as_ref().unwrap().repeat_state,
        RepeatState::Track
    );
}

#[test]
fn a_volume_is_kept_in_mind_until_it_is_reported() {
    let mut app = remote_state();
    app.pending_volume = Some(55);
    app.is_volume_change_in_flight = true;
    let mut out = Outbox::new();
    assert_eq!(
        app.change_volume(&env(2, None), 55, &mut out),
        query("me/player/volume", "volume_percent", "55")
    );
    app.change_volume_answered(55, Ok(()), &mut out);
    assert_eq!(app.pending_volume, Some(55));
    assert_eq!(app.last_dispatched_volume, Some(55));
    assert!(!app.is_volume_change_in_flight);
    assert_eq!(
        app.current_playback_context.as_ref().unwrap().device.volume_percent,
        Some(55)
    );

    app.is_volume_change_in_flight = true;
    app.change_volume_answered(60, Err("broken".to_string()), &mut out);
    assert_eq!(app.pending_volume, None);
    assert_eq!(app.last_dispatched_volume, None);
    assert!(!app.is_volume_change_in_flight);
    assert_eq!(out.effects, vec![Effect::HandleError("broken".to_string())]);
}

#[test]
fn a_volume_is_taken_by_the_native_player() {
    let mut app = native_state();
    app.pending_volume = Some(12);
    let mut out = Outbox::new();
    assert_eq!(app.change_volume(&env(2, Some(player())), 12, &mut out), None);
    assert_eq!(out.effects, vec![Effect::SetVolume(12)]);
    assert_eq!(app.pending_volume, Some(12));
    assert_eq!(app.last_dispatched_volume, Some(12));
}

#[test]
fn a_missing_device_is_no_error_while_a_player_is_expected() {
    let mut app = remote_state();
    app.native_backend_pending = true;
    let mut out = Outbox::new();
    app.command_answered(Err("NO_ACTIVE_DEVICE".to_string()), &mut out);
    assert_eq!(
        out.effects,
        vec![Effect::SetStatusMessage {
            message: "Reconnecting native streaming…".to_string(),
            ttl_secs: 5,
        }]
    );
    let mut out = Outbox::new();
    assert!(!app.suppressed_no_device_error_while_pending("playlist not found", &mut out));
    app.native_backend_pending = false;
    assert!(!app.suppressed_no_device_error_while_pending("NO_ACTIVE_DEVICE", &mut out));
    assert!(out.effects.is_empty());
    app.command_answered(Err("NO_ACTIVE_DEVICE".to_string()), &mut out);
    assert_eq!(out.effects, vec![Effect::HandleError("NO_ACTIVE_DEVICE".to_string())]);
}
