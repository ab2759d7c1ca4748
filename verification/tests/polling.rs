use playback::device::DevicePayload;
use playback::effects::{ApiMethod, Effect, IoEvent, Outbox};
use playback::items::{Device, PlayableItem, PlaybackContext, RepeatState};
use playback::poll::{LocalState, Verdict};
use playback::recovery::{NativeIdleRecoveryPhase, NativeIdleRecoveryState};
use playback::state::{NativePlayer, NativeTrackInfo, PlaybackEnv, PlaybackState};
use playback::time::Moment;

fn at(secs: i64) -> Moment {
    Moment { nanos: secs * 1_000_000_000 }
}

fn state() -> PlaybackState {
    PlaybackState {
        current_playback_context: None,
        devices: None,
        is_streaming_active: false,
        native_activation_pending: false,
        native_backend_pending: false,
        native_device_id: None,
        native_playback_origin: None,
        native_is_playing: None,
        native_track_info: None,
        native_load_watchdog: None,
        native_idle_recovery: NativeIdleRecoveryState::default(),
        last_device_activation: None,
        last_track_id: None,
        instant_since_last_current_playback_poll: at(0),
        is_fetching_current_playback: true,
        pending_start_playback: None,
        pending_volume: None,
        last_dispatched_volume: None,
        is_volume_change_in_flight: false,
        seek_ms: None,
        song_progress_ms: 0,
        shuffle_enabled: false,
        enable_global_song_count: false,
        status_message: None,
        status_message_expires_at: None,
    }
}

fn player() -> NativePlayer {
    NativePlayer {
        instance: 1,
        connected: true,
        available: true,
        device_id: "native".to_string(),
        device_name: "spotatui".to_string(),
        volume: 40,
    }
}

fn env(now: i64, player: Option<NativePlayer>) -> PlaybackEnv {
    PlaybackEnv {
        now: at(now),
        player,
        fresh_native_activity: false,
        saved_device_id: None,
        restore_generation: None,
    }
}

fn device(id: &str, name: &str) -> Device {
    Device { id: Some(id.to_string()), name: name.to_string(), volume_percent: Some(50) }
}

fn context(id: &str, name: &str) -> PlaybackContext {
    PlaybackContext {
        device: device(id, name),
        shuffle_state: false,
        repeat_state: RepeatState::Off,
        is_playing: true,
        item: None,
        has_context: false,
        progress_ms: None,
    }
}

fn track(id: &str, name: &str) -> Option<PlayableItem> {
    Some(PlayableItem::Track { id: Some(id.to_string()), name: name.to_string() })
}

fn mark_native() -> Effect {
    Effect::MarkNativeDeviceAvailable {
        device_id: "native".to_string(),
        device_name: "spotatui".to_string(),
        volume: 40,
    }
}

#[test]
fn a_poll_asks_for_tracks_and_episodes() {
    let mut app = state();
    let (local, call) = app.get_current_playback(&env(1, None));
    assert_eq!(local, None);
    assert_eq!(call.method, ApiMethod::Get);
    assert_eq!(call.path, "me/player");
    assert_eq!(call.query, vec![("additional_types", "episode,track".to_string())]);
    assert_eq!(call.body, None);
    assert_eq!(app, state());
}

#[test]
fn a_poll_takes_down_what_is_known_of_native_playback() {
    let mut app = state();
    app.current_playback_context = Some(context("native", "spotatui"));
    app.native_is_playing = Some(false);
    let (local, _) = app.get_current_playback(&env(1, Some(player())));
    assert_eq!(
        local,
        Some(LocalState {
            volume: 40,
            shuffle: false,
            repeat: RepeatState::Off,
            native_is_playing: Some(false),
        })
    );
    assert_eq!(app.native_idle_recovery.player_instance, Some(1));

    let mut gone = player();
    gone.available = false;
    let (local, _) = app.get_current_playback(&env(2, Some(gone)));
    assert_eq!(local, None);
    assert_eq!(app.native_idle_recovery.player_instance, None);
}

#[test]
fn a_report_on_the_native_device_keeps_what_is_known_locally() {
    let mut app = state();
    app.native_device_id = Some("native".to_string());
    app.seek_ms = Some(7);
    let local = Some(LocalState {
        volume: 33,
        shuffle: true,
        repeat: RepeatState::Track,
        native_is_playing: Some(false),
    });
    let mut out = Outbox::new();
    app.playback_polled(
        &env(9, Some(player())),
        local,
        Ok(Some(context("native", "spotatui"))),
        &mut out,
    );
    let shown = app.current_playback_context.as_ref().unwrap();
    assert_eq!(shown.device.volume_percent, Some(33));
    assert!(shown.shuffle_state);
    assert_eq!(shown.repeat_state, RepeatState::Track);
    assert!(!shown.is_playing);
    assert!(app.is_streaming_active);
    assert_eq!(app.seek_ms, None);
    assert!(!app.is_fetching_current_playback);
    assert_eq!(app.instant_since_last_current_playback_poll, at(9));
    assert!(out.effects.is_empty());
}

#[test]
fn the_first_report_on_the_native_device_takes_the_saved_shuffle() {
    let mut app = state();
    app.shuffle_enabled = true;
    let mut ears = env(9, Some(player()));
    ears.fresh_native_activity = true;
    let mut out = Outbox::new();
    app.playback_polled(&ears, None, Ok(Some(context("new-id", "SPOTATUI"))), &mut out);
    assert!(app.current_playback_context.as_ref().unwrap().shuffle_state);
    assert_eq!(app.native_device_id.as_deref(), Some("new-id"));
    assert!(app.is_streaming_active);
    assert_eq!(out.effects, vec![Effect::SetShuffle(true)]);
}

#[test]
fn the_name_alone_does_not_make_a_device_native() {
    let app = state();
    let verdict = app.judge_report(&env(9, Some(player())), &context("other", "spotatui"));
    assert_eq!(verdict, Verdict { native: false, confirmed: false, stale: false });
    let mut known = state();
    known.native_device_id = Some("native".to_string());
    let mut ears = env(9, Some(player()));
    ears.fresh_native_activity = true;
    let verdict = known.judge_report(&ears, &context("other", "spotatui"));
    assert!(!verdict.native);
    assert!(known.judge_report(&ears, &context("native", "renamed")).native);
}

#[test]
fn a_new_track_is_counted_and_looked_up_once() {
    let mut app = state();
    app.enable_global_song_count = true;
    let mut reported = context("phone", "Phone");
    reported.item = track("t1", "Song");
    let mut out = Outbox::new();
    app.playback_polled(&env(1, None), None, Ok(Some(reported)), &mut out);
    assert_eq!(
        out.effects,
        vec![
            Effect::Dispatch(IoEvent::IncrementGlobalSongCount),
            Effect::Dispatch(IoEvent::CurrentUserSavedTracksContains(vec!["t1".to_string()])),
        ]
    );
    assert_eq!(app.last_track_id.as_deref(), Some("t1"));

    let mut again = context("phone", "Phone");
    again.item = track("t1", "Song");
    let mut out = Outbox::new();
    app.playback_polled(&env(2, None), None, Ok(Some(again)), &mut out);
    assert!(out.effects.is_empty());

    let mut episode = context("phone", "Phone");
    episode.item = Some(PlayableItem::Episode { id: "e".to_string(), name: "Talk".to_string() });
    let mut out = Outbox::new();
    app.playback_polled(&env(3, None), None, Ok(Some(episode)), &mut out);
    assert!(out.effects.is_empty());
    assert_eq!(app.last_track_id.as_deref(), Some("t1"));
}

#[test]
fn a_stale_report_leaves_what_is_shown() {
    let mut app = state();
    app.is_streaming_active = true;
    app.native_track_info = Some(NativeTrackInfo { name: "New".to_string() });
    app.last_track_id = Some("new".to_string());
    app.current_playback_context = Some(context("native", "spotatui"));
    let mut reported = context("phone", "Phone");
    reported.item = track("old", "Old");
    let mut out = Outbox::new();
    app.playback_polled(&env(5, Some(player())), None, Ok(Some(reported)), &mut out);
    assert_eq!(app.current_playback_context, Some(context("native", "spotatui")));
    assert_eq!(app.last_track_id.as_deref(), Some("new"));
    assert_eq!(app.native_track_info, Some(NativeTrackInfo { name: "New".to_string() }));
    assert!(app.is_streaming_active);
    assert!(out.effects.is_empty());
}

#[test]
fn a_confirmed_report_drops_the_native_metadata() {
    let mut app = state();
    app.native_device_id = Some("native".to_string());
    app.native_track_info = Some(NativeTrackInfo { name: "Song".to_string() });
    let mut reported = context("native", "spotatui");
    reported.item = track("t1", "Song");
    let mut out = Outbox::new();
    app.playback_polled(&env(5, Some(player())), None, Ok(Some(reported)), &mut out);
    assert_eq!(app.native_track_info, None);

    app.native_track_info = Some(NativeTrackInfo { name: "Other".to_string() });
    app.playback_polled(
        &env(6, Some(player())),
        None,
        Ok(Some(context("native", "spotatui"))),
        &mut out,
    );
    assert_eq!(app.native_track_info, Some(NativeTrackInfo { name: "Other".to_string() }));
}

#[test]
fn a_choice_that_spotify_does_not_confirm_ends_with_the_next_report() {
    let mut app = state();
    app.is_streaming_active = true;
    let mut out = Outbox::new();
    app.playback_polled(
        &env(5, Some(player())),
        None,
        Ok(Some(context("phone", "Phone"))),
        &mut out,
    );
    assert!(!app.is_streaming_active);
}

#[test]
fn a_volume_change_is_shown_until_spotify_reports_it() {
    let mut app = state();
    app.current_playback_context = Some(context("phone", "Phone"));
    app.current_playback_context.as_mut().unwrap().device.volume_percent = Some(70);
    app.pending_volume = Some(70);
    app.last_dispatched_volume = Some(70);
    let mut out = Outbox::new();
    app.playback_polled(&env(1, None), None, Ok(Some(context("phone", "Phone"))), &mut out);
    assert_eq!(app.pending_volume, Some(70));
    assert_eq!(
        app.current_playback_context.as_ref().unwrap().device.volume_percent,
        Some(70)
    );
    let mut reported = context("phone", "Phone");
    reported.device.volume_percent = Some(70);
    app.playback_polled(&env(2, None), None, Ok(Some(reported)), &mut out);
    assert_eq!(app.pending_volume, None);
    assert_eq!(app.last_dispatched_volume, None);
}

#[test]
fn only_a_matching_volume_ends_a_volume_change() {
    let mut out = Outbox::new();
    for (pending, volume) in [(0, None), (1, Some(257)), (1, Some(2))] {
        let mut app = state();
        app.pending_volume = Some(pending);
        app.last_dispatched_volume = Some(pending);
        let mut reported = context("phone", "Phone");
        reported.device.volume_percent = volume;
        app.playback_polled(&env(1, None), None, Ok(Some(reported)), &mut out);
        assert_eq!(app.pending_volume, Some(pending));
        assert_eq!(app.last_dispatched_volume, Some(pending));
    }
    let mut app = state();
    app.pending_volume = Some(0);
    let mut reported = context("phone", "Phone");
    reported.device.volume_percent = Some(0);
    app.playback_polled(&env(1, None), None, Ok(Some(reported)), &mut out);
    assert_eq!(app.pending_volume, None);
}

#[test]
fn without_a_native_player_an_unconfirmed_item_is_stale() {
    let mut app = state();
    app.native_track_info = Some(NativeTrackInfo { name: "Local".to_string() });
    app.seek_ms = Some(1);
    let mut out = Outbox::new();
    let mut reported = context("phone", "Phone");
    reported.item = track("t1", "Song");
    app.playback_polled_without_native_player(at(4), Ok(Some(reported)), &mut out);
    assert_eq!(app.current_playback_context, None);
    assert_eq!(app.last_track_id, None);
    assert_eq!(app.instant_since_last_current_playback_poll, at(4));
    assert_eq!(app.seek_ms, None);
    assert!(!app.is_fetching_current_playback);
    assert!(out.effects.is_empty());

    let mut reported = context("phone", "Phone");
    reported.item = track("t1", "Local");
    app.playback_polled_without_native_player(at(5), Ok(Some(reported)), &mut out);
    assert_eq!(app.last_track_id.as_deref(), Some("t1"));
    assert!(app.current_playback_context.is_some());
    assert_eq!(app.native_track_info, Some(NativeTrackInfo { name: "Local".to_string() }));
    assert_eq!(
        out.effects,
        vec![Effect::Dispatch(IoEvent::CurrentUserSavedTracksContains(vec!["t1".to_string()]))]
    );

    let mut out = Outbox::new();
    app.playback_polled_without_native_player(at(6), Ok(None), &mut out);
    assert_eq!(app.instant_since_last_current_playback_poll, at(6));
    app.playback_polled_without_native_player(at(7), Err("Not Found".to_string()), &mut out);
    assert_eq!(app.current_playback_context, None);
    assert!(out.effects.is_empty());
    app.playback_polled_without_native_player(at(8), Err("surprise".to_string()), &mut out);
    assert_eq!(out.effects, vec![Effect::HandleError("surprise".to_string())]);
}

#[test]
fn an_idle_poll_wakes_the_native_player_up_at_most_twice() {
    let mut app = state();
    app.native_idle_recovery.observe_player_instance(Some(1));
    let woken = vec![
        Effect::Transfer,
        Effect::Activate,
        mark_native(),
        Effect::PersistDeviceId("native".to_string()),
    ];
    let listed = vec![mark_native(), Effect::PersistDeviceId("native".to_string())];
    for (now, expected) in [(0, &woken), (3, &listed), (5, &woken), (60, &listed)] {
        let mut out = Outbox::new();
        app.playback_polled(&env(now, Some(player())), None, Ok(None), &mut out);
        assert_eq!(&out.effects, expected);
        assert_eq!(app.instant_since_last_current_playback_poll, at(now));
    }
    assert_eq!(app.last_device_activation, Some(at(5)));
    assert_eq!(
        app.native_idle_recovery.phase,
        NativeIdleRecoveryPhase::Idle { attempts: 2, last_attempt: at(5) }
    );
}

#[test]
fn an_idle_poll_leaves_a_saved_external_device_alone() {
    let mut app = state();
    app.devices = Some(DevicePayload { devices: vec![device("phone", "Phone")] });
    let mut away = env(1, Some(player()));
    away.saved_device_id = Some("phone".to_string());
    let mut out = Outbox::new();
    app.playback_polled(&away, None, Ok(None), &mut out);
    assert!(out.effects.is_empty());
    assert_eq!(app.last_device_activation, None);

    let mut gone = player();
    gone.connected = false;
    app.playback_polled(&env(2, Some(gone)), None, Ok(None), &mut out);
    assert!(out.effects.is_empty());
}

#[test]
fn a_saved_native_device_is_not_saved_again() {
    let mut app = state();
    let mut known = env(1, Some(player()));
    known.saved_device_id = Some("native".to_string());
    let mut out = Outbox::new();
    app.playback_polled(&known, None, Ok(None), &mut out);
    assert_eq!(out.effects, vec![Effect::Transfer, Effect::Activate, mark_native()]);
}

#[test]
fn a_missing_player_means_that_nothing_plays() {
    for text in ["http status 404", "Not Found"] {
        let mut app = state();
        app.current_playback_context = Some(context("phone", "Phone"));
        app.seek_ms = Some(3);
        let mut out = Outbox::new();
        app.playback_polled(&env(8, None), None, Err(text.to_string()), &mut out);
        assert_eq!(app.current_playback_context, None);
        assert_eq!(app.instant_since_last_current_playback_poll, at(8));
        assert!(!app.is_fetching_current_playback);
        assert_eq!(app.seek_ms, Some(3));
        assert!(out.effects.is_empty());
    }
}

#[test]
fn a_passing_failure_is_told_and_leaves_playback() {
    let mut app = state();
    app.current_playback_context = Some(context("phone", "Phone"));
    let mut out = Outbox::new();
    app.playback_polled(&env(8, None), None, Err("ACCESS TOKEN MISSING".to_string()), &mut out);
    assert_eq!(
        out.effects,
        vec![
            Effect::Dispatch(IoEvent::RefreshAuthentication),
            Effect::ShowStatusMessage {
                message: "Spotify session expired. Refreshing authentication automatically."
                    .to_string(),
                ttl_secs: 5,
            },
        ]
    );
    assert_eq!(app.current_playback_context, Some(context("phone", "Phone")));
}

#[test]
fn any_other_failure_is_an_error() {
    let mut app = state();
    let mut out = Outbox::new();
    app.playback_polled(&env(8, None), None, Err("surprise".to_string()), &mut out);
    assert_eq!(out.effects, vec![Effect::HandleError("surprise".to_string())]);
    assert_eq!(app.instant_since_last_current_playback_poll, at(0));
    assert!(!app.is_fetching_current_playback);
}
