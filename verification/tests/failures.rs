use playback::effects::{Effect, IoEvent, Outbox};
use playback::errors::{
    classify_poll_error, handle_transient_playback_poll_error, is_no_active_device_error,
    TransientPollError,
};
use playback::recovery::NativeIdleRecoveryState;
use playback::state::PlaybackState;
use playback::time::Moment;

fn at(secs: i64) -> Moment {
    Moment { nanos: secs * 1_000_000_000 }
}

fn state() -> PlaybackState {
    PlaybackState {
        current_playback_context: None,
        devices: None,
        is_streaming_active: false,
        native_activation_pending: false,
        native_backend_pending: false,
        native_device_id: None,
        native_playback_origin: None,
        native_is_playing: None,
        native_track_info: None,
        native_load_watchdog: None,
        native_idle_recovery: NativeIdleRecoveryState::default(),
        last_device_activation: None,
        last_track_id: None,
        instant_since_last_current_playback_poll: at(0),
        is_fetching_current_playback: true,
        pending_start_playback: None,
        pending_volume: None,
        last_dispatched_volume: None,
        is_volume_change_in_flight: false,
        seek_ms: None,
        song_progress_ms: 0,
        shuffle_enabled: false,
        enable_global_song_count: false,
        status_message: None,
        status_message_expires_at: None,
    }
}

#[test]
fn no_active_device_error_matches_spotify_no_device_signals() {
    assert!(is_no_active_device_error(
        r#"Spotify API 404 Not Found failed: {"error":{"reason":"NO_ACTIVE_DEVICE"}}"#
    ));
    assert!(is_no_active_device_error(
        "Spotify API 404 Not Found failed: No active device found"
    ));
}

#[test]
fn no_active_device_error_does_not_match_generic_not_found() {
    assert!(!is_no_active_device_error(
        "Spotify API 404 Not Found failed: playlist not found"
    ));
    assert!(!is_no_active_device_error(
        "Spotify API 404 failed for https://example.test/404"
    ));
}

#[test]
fn playback_poll_auth_errors_refresh_authentication_instead_of_erroring() {
    for err_text in [
        "http status 401 from me/player",
        "Unauthorized",
        "Access token missing",
    ] {
        let mut app = state();
        let mut out = Outbox::new();
        let stale_poll = at(40);
        app.instant_since_last_current_playback_poll = stale_poll;

        let consumed = handle_transient_playback_poll_error(&mut app, &mut out, err_text, at(100));
        assert_eq!(
            consumed,
            Some((
                "Spotify session expired. Refreshing authentication automatically.",
                5
            )),
            "auth error {err_text:?} must be consumed before generic error handling"
        );

        assert_eq!(
            out.effects,
            vec![Effect::Dispatch(IoEvent::RefreshAuthentication)],
            "auth error {err_text:?} must dispatch RefreshAuthentication and show no error"
        );
        assert!(app.instant_since_last_current_playback_poll.nanos > stale_poll.nanos);
    }
}

#[test]
fn playback_poll_rate_limit_errors_show_status_and_keep_polling() {
    for err_text in ["http status 429", "Too Many Requests", "Too many requests"] {
        let mut app = state();
        let mut out = Outbox::new();
        let stale_poll = at(40);
        app.instant_since_last_current_playback_poll = stale_poll;

        let consumed = handle_transient_playback_poll_error(&mut app, &mut out, err_text, at(100));
        assert_eq!(
            consumed,
            Some((
                "Spotify rate limit hit. Retrying automatically; please wait a few seconds.",
                6
            )),
            "rate-limit error {err_text:?} must be consumed before generic error handling"
        );

        assert!(
            out.effects.is_empty(),
            "rate-limit error {err_text:?} must not ask for anything"
        );
        assert!(app.instant_since_last_current_playback_poll.nanos > stale_poll.nanos);
    }
}

#[test]
fn playback_poll_unrecognized_errors_fall_through_to_generic_handling() {
    let mut app = state();
    let mut out = Outbox::new();

    assert!(handle_transient_playback_poll_error(
        &mut app,
        &mut out,
        "some unexpected failure",
        at(100)
    )
    .is_none());
    assert!(out.effects.is_empty());
    assert!(app.status_message.is_none());
    assert_eq!(app, state());
}

#[test]
fn network_failures_are_told_for_five_seconds() {
    for err_text in [
        "Error sending request for URL (https://api.spotify.com)",
        "connection reset by peer",
        "connection refused",
        "operation timed out",
        "temporary failure in name resolution",
        "dns error",
    ] {
        let mut app = state();
        let mut out = Outbox::new();
        assert_eq!(
            handle_transient_playback_poll_error(&mut app, &mut out, err_text, at(9)),
            Some((
                "Temporary Spotify network error while polling playback; retrying automatically.",
                5
            ))
        );
        assert!(out.effects.is_empty());
        assert_eq!(app.instant_since_last_current_playback_poll, at(9));
    }
}

#[test]
fn server_failures_are_told_for_ten_seconds() {
    for err_text in [
        "status 502",
        "status 503",
        "status 504",
        "Gateway Timeout",
        "Service Unavailable",
        "Bad Gateway",
    ] {
        let mut app = state();
        let mut out = Outbox::new();
        assert_eq!(
            handle_transient_playback_poll_error(&mut app, &mut out, err_text, at(9)),
            Some((
                "Spotify server temporarily unavailable (5xx); retrying automatically.",
                10
            ))
        );
        assert!(out.effects.is_empty());
    }
}

#[test]
fn an_expired_session_comes_before_other_failures() {
    assert_eq!(
        classify_poll_error("401 after 429 timed out 503", "401 after 429 timed out 503"),
        Some(TransientPollError::SessionExpired)
    );
    assert_eq!(
        classify_poll_error("429 timed out 503", "429 timed out 503"),
        Some(TransientPollError::RateLimited)
    );
    assert_eq!(
        classify_poll_error("timed out 503", "timed out 503"),
        Some(TransientPollError::NetworkFailure)
    );
    assert_eq!(classify_poll_error("503", "503"), Some(TransientPollError::ServerUnavailable));
    assert_eq!(classify_poll_error("Timed Out", "timed out"), None);
    assert_eq!(classify_poll_error("", ""), None);
}
