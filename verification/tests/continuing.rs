use playback::continuation::{
    advance_answered, continue_after_transition, resume_spotify_context, ContinueNext,
    NativeTransition, NextOfList,
};
use playback::cover_art::{CoverArtState, CoverArtStatus, FetchedArt};
use playback::effects::{ApiCall, ApiMethod, Effect, KeptRequest, Outbox, PluginDataKind};
use playback::ids::{ContextKind, PlayContextId, PlayableId, PlayableKind};
use playback::items::{Device, PlayableItem, PlaybackContext, RepeatState};
use playback::queue::{add_item_to_queue, get_queue, QueueState};
use playback::recovery::NativeIdleRecoveryState;
use playback::request::{LoadSource, NativePlaybackRecoverySnapshot};
use playback::start::PlaybackRequest;
use playback::state::{NativePlayer, PendingStart, PlaybackEnv, PlaybackState};
use playback::time::Moment;

fn at(secs: i64) -> Moment {
    Moment { nanos: secs * 1_000_000_000 }
}

fn state() -> PlaybackState {
    PlaybackState {
        current_playback_context: None,
        devices: None,
        is_streaming_active: false,
        native_activation_pending: false,
        native_backend_pending: false,
        native_device_id: None,
        native_playback_origin: None,
        native_is_playing: None,
        native_track_info: None,
        native_load_watchdog: None,
        native_idle_recovery: NativeIdleRecoveryState::default(),
        last_device_activation: None,
        last_track_id: None,
        instant_since_last_current_playback_poll: at(0),
        is_fetching_current_playback: true,
        pending_start_playback: None,
        pending_volume: None,
        last_dispatched_volume: None,
        is_volume_change_in_flight: false,
        seek_ms: None,
        song_progress_ms: 0,
        shuffle_enabled: false,
        enable_global_song_count: false,
        status_message: None,
        status_message_expires_at: None,
    }
}

fn player() -> NativePlayer {
    NativePlayer {
        instance: 1,
        connected: true,
        available: true,
        device_id: "native".to_string(),
        device_name: "spotatui".to_string(),
        volume: 40,
    }
}

fn env(now: i64, player: Option<NativePlayer>) -> PlaybackEnv {
    PlaybackEnv {
        now: at(now),
        player,
        fresh_native_activity: false,
        saved_device_id: None,
        restore_generation: None,
    }
}

fn device(id: &str, name: &str) -> Device {
    Device { id: Some(id.to_string()), name: name.to_string(), volume_percent: Some(50) }
}

fn context(id: &str, name: &str) -> PlaybackContext {
    PlaybackContext {
        device: device(id, name),
        shuffle_state: false,
        repeat_state: RepeatState::Off,
        is_playing: true,
        item: None,
        has_context: false,
        progress_ms: None,
    }
}

fn track(id: &str) -> PlayableId {
    PlayableId::from_id(PlayableKind::Track, id).unwrap()
}

fn ask_playback() -> ApiCall {
    ApiCall { method: ApiMethod::Get, path: "me/player", query: Vec::new(), body: None }
}

fn stopped_at(id: &str, progress_ms: Option<i64>) -> PlaybackContext {
    let mut ctx = context("native", "spotatui");
    ctx.is_playing = false;
    ctx.item = Some(PlayableItem::Track { id: Some(id.to_string()), name: "Song".to_string() });
    ctx.progress_ms = progress_ms;
    ctx
}

fn resume() -> ContinueNext {
    ContinueNext::Start(PlaybackRequest { context: None, uris: None, offset: None })
}

fn snapshot() -> NativePlaybackRecoverySnapshot {
    NativePlaybackRecoverySnapshot {
        context_uri: Some("spotify:album:x".to_string()),
        uris: None,
        offset: None,
        expected_track_uri: Some("spotify:track:t".to_string()),
        track_duration_ms: Some(1000),
        position_ms: 2000,
        desired_playing: false,
        shuffle: true,
        repeat: RepeatState::Context,
    }
}

#[test]
fn resume_spotify_context_with_nothing_known_finishes_the_queue() {
    let mut out = Outbox::new();

    assert_eq!(resume_spotify_context(None, None, &mut out), None);

    assert_eq!(
        out.effects,
        vec![Effect::SetStatusMessage { message: "Queue finished".to_string(), ttl_secs: 3 }]
    );
}

#[test]
fn resuming_starts_the_context_at_the_track() {
    let album = PlayContextId::from_id(ContextKind::Album, "a").unwrap();
    let mut out = Outbox::new();
    assert_eq!(
        resume_spotify_context(Some(album.clone()), Some(track("t")), &mut out),
        Some(PlaybackRequest {
            context: Some(album.clone()),
            uris: Some(vec![track("t")]),
            offset: None,
        })
    );
    assert_eq!(
        resume_spotify_context(Some(album.clone()), None, &mut out),
        Some(PlaybackRequest { context: Some(album), uris: None, offset: None })
    );
    assert_eq!(
        resume_spotify_context(None, Some(track("t")), &mut out),
        Some(PlaybackRequest { context: None, uris: Some(vec![track("t")]), offset: None })
    );
    assert!(out.effects.is_empty());
}

#[test]
fn native_playback_is_asked_about_first() {
    let mut app = state();
    app.is_streaming_active = true;
    assert_eq!(app.ensure_playback_continues(&env(1, Some(player()))), None);
    assert_eq!(app.ensure_playback_continues(&env(1, None)), Some(ask_playback()));
}

#[test]
fn a_native_transition_decides_in_order() {
    let mut out = Outbox::new();
    let advanced = NativeTransition { advanced: true, next: None, exhausted: true };
    assert_eq!(continue_after_transition(advanced, &mut out), ContinueNext::Done);
    let next = NativeTransition {
        advanced: false,
        next: Some(NextOfList { uris: Some(vec![track("b")]), offset: Some(3) }),
        exhausted: true,
    };
    assert_eq!(
        continue_after_transition(next, &mut out),
        ContinueNext::Start(PlaybackRequest {
            context: None,
            uris: Some(vec![track("b")]),
            offset: Some(3),
        })
    );
    let unknown = NativeTransition { advanced: false, next: None, exhausted: false };
    assert_eq!(
        continue_after_transition(unknown, &mut out),
        ContinueNext::AskPlayback(ask_playback())
    );
    assert!(out.effects.is_empty());
    let ended = NativeTransition { advanced: false, next: None, exhausted: true };
    assert_eq!(continue_after_transition(ended, &mut out), ContinueNext::Done);
    assert_eq!(out.effects, vec![Effect::SetNativePlaybackIntent(false)]);
}

#[test]
fn playback_that_stands_at_the_finished_item_goes_on() {
    let app = state();
    let mut out = Outbox::new();
    for progress in [None, Some(0)] {
        assert_eq!(
            app.continue_after_playback(
                false,
                "spotify:track:a",
                Some(stopped_at("a", progress)),
                &mut out
            ),
            ContinueNext::NextTrack
        );
    }
    assert!(out.effects.is_empty());
}

#[test]
fn no_item_is_skipped() {
    let app = state();
    let mut out = Outbox::new();
    for native in [false, true] {
        assert_eq!(
            app.continue_after_playback(native, "a", Some(stopped_at("b", None)), &mut out),
            resume()
        );
        assert_eq!(
            app.continue_after_playback(native, "a", Some(stopped_at("a", Some(5))), &mut out),
            resume()
        );
        assert_eq!(
            app.continue_after_playback(native, "a", None, &mut out),
            ContinueNext::Done
        );
        let mut playing = stopped_at("a", None);
        playing.is_playing = true;
        assert_eq!(
            app.continue_after_playback(native, "a", Some(playing), &mut out),
            ContinueNext::Done
        );
        let mut unknown = stopped_at("a", None);
        unknown.item = Some(PlayableItem::Unknown);
        assert_eq!(
            app.continue_after_playback(native, "a", Some(unknown), &mut out),
            ContinueNext::Done
        );
    }
    assert!(out.effects.is_empty());
}

#[test]
fn stalled_native_playback_advances_on_its_device() {
    let mut app = state();
    app.native_device_id = Some("native".to_string());
    let mut out = Outbox::new();
    let next = app.continue_after_playback(true, "a", Some(stopped_at("a", None)), &mut out);
    assert_eq!(
        next,
        ContinueNext::AdvanceNative(ApiCall {
            method: ApiMethod::Post,
            path: "me/player/next",
            query: vec![("device_id", "native".to_string())],
            body: None,
        })
    );
    advance_answered(Ok(()), &mut out);
    assert!(out.effects.is_empty());
    advance_answered(Err("broken".to_string()), &mut out);
    assert_eq!(out.effects, vec![Effect::ForceNativeStreamingRecovery]);

    let mut out = Outbox::new();
    assert_eq!(
        state().continue_after_playback(true, "a", Some(stopped_at("a", None)), &mut out),
        ContinueNext::Done
    );
    assert_eq!(out.effects, vec![Effect::ForceNativeStreamingRecovery]);
}

#[test]
fn a_restore_waits_for_a_start_and_needs_a_connection() {
    let mut out = Outbox::new();
    assert!(state().restore_native_playback(&env(1, Some(player())), &mut out));
    let mut waiting = state();
    waiting.pending_start_playback = Some(PendingStart {
        request: KeptRequest { context_uri: None, uris: None, offset: None },
        recovery_attempts: 0,
    });
    assert!(!waiting.restore_native_playback(&env(1, None), &mut out));
    assert!(out.effects.is_empty());
    let mut gone = player();
    gone.connected = false;
    assert!(!state().restore_native_playback(&env(1, Some(gone)), &mut out));
    assert_eq!(out.effects, vec![Effect::ForceNativeStreamingRecovery]);
}

#[test]
fn restored_playback_is_as_it_was() {
    let mut app = state();
    app.current_playback_context = Some(context("native", "spotatui"));
    let mut here = env(9, Some(player()));
    here.restore_generation = Some(4);
    let mut out = Outbox::new();
    let load = app.restore_begun(&here, 4, &snapshot(), &mut out).unwrap();
    assert_eq!(load.source, LoadSource::Context("spotify:album:x".to_string()));
    assert_eq!(load.seek_to, 999);
    assert_eq!(app.native_load_watchdog, Some(at(9)));
    assert_eq!(
        out.effects,
        vec![
            Effect::SetStatusMessage {
                message: "Native connection restored; restoring playback.".to_string(),
                ttl_secs: 6,
            },
            Effect::Activate,
        ]
    );
    let mut out = Outbox::new();
    app.restore_loaded(&here, 4, &snapshot(), Ok(()), &mut out);
    assert!(out.effects.is_empty());
    let shown = app.current_playback_context.as_ref().unwrap();
    assert!(!shown.is_playing);
    assert!(shown.shuffle_state);
    assert_eq!(shown.repeat_state, RepeatState::Context);
    assert_eq!(app.song_progress_ms, 999);
    assert_eq!(app.native_is_playing, Some(false));
    assert!(app.is_streaming_active);
}

#[test]
fn a_failed_restore_recovers_the_player() {
    let mut app = state();
    app.native_load_watchdog = Some(at(1));
    let mut here = env(9, Some(player()));
    here.restore_generation = Some(4);
    let mut out = Outbox::new();
    app.restore_loaded(&here, 4, &snapshot(), Err("broken".to_string()), &mut out);
    assert_eq!(app.native_load_watchdog, None);
    assert_eq!(
        out.effects,
        vec![
            Effect::ClearNativeRestore,
            Effect::SetStatusMessage {
                message: "Native playback restore failed; reconnecting again.".to_string(),
                ttl_secs: 8,
            },
            Effect::ForceNativeStreamingRecovery,
        ]
    );
    let mut out = Outbox::new();
    app.restore_loaded(&here, 3, &snapshot(), Ok(()), &mut out);
    assert!(out.effects.is_empty());
    assert!(!app.is_streaming_active);
}

#[test]
fn nothing_to_restore_is_told() {
    let mut app = state();
    let mut here = env(9, Some(player()));
    here.restore_generation = Some(4);
    let mut nothing = snapshot();
    nothing.context_uri = None;
    let mut out = Outbox::new();
    assert_eq!(app.restore_begun(&here, 4, &nothing, &mut out), None);
    assert_eq!(app.native_load_watchdog, None);
    assert_eq!(
        out.effects[1..],
        [
            Effect::ClearNativeRestore,
            Effect::SetStatusMessage {
                message:
                    "Native connection recovered, but there was no playback state to restore."
                        .to_string(),
                ttl_secs: 8,
            },
        ]
    );
    let mut out = Outbox::new();
    assert_eq!(app.restore_begun(&here, 5, &nothing, &mut out), None);
    assert_eq!(out.effects.len(), 1);
    assert_eq!(app.native_load_watchdog, Some(at(9)));
}

#[test]
fn a_queued_item_is_told_for_three_seconds() {
    assert_eq!(
        add_item_to_queue(&track("t")),
        ApiCall {
            method: ApiMethod::Post,
            path: "me/player/queue",
            query: vec![("uri", "spotify:track:t".to_string())],
            body: None,
        }
    );
    let mut app = state();
    let mut out = Outbox::new();
    app.item_queued(at(7), Ok(()), &mut out);
    assert_eq!(app.status_message.as_deref(), Some("Added to queue"));
    assert_eq!(app.status_message_expires_at, Some(at(10)));
    assert!(out.effects.is_empty());
    let mut app = state();
    app.item_queued(at(7), Err("broken".to_string()), &mut out);
    assert_eq!(app, state());
    assert_eq!(out.effects, vec![Effect::HandleError("broken".to_string())]);
}

#[test]
fn a_queue_holds_the_items_that_could_be_read() {
    assert_eq!(get_queue().path, "me/player/queue");
    assert_eq!(get_queue().method, ApiMethod::Get);
    let mut app = state();
    let mut out = Outbox::new();
    let queue = app.queue_answered(at(7), Ok((None, vec![Some(1), None, Some(2)])), &mut out);
    assert_eq!(queue, Some(QueueState { currently_playing: None, queue: vec![1, 2] }));
    assert_eq!(out.effects, vec![Effect::BumpPluginData(PluginDataKind::Queue)]);
    assert_eq!(app, state());
    let queue: Option<QueueState<u8>> =
        app.queue_answered(at(7), Err("broken".to_string()), &mut out);
    assert_eq!(queue, None);
    assert_eq!(out.effects.len(), 2);
    assert_eq!(
        app.status_message.as_deref(),
        Some("Could not load queue (no active device?)")
    );
    assert_eq!(app.status_message_expires_at, Some(at(10)));
}

#[test]
fn cover_art_is_fetched_when_it_is_wanted_and_not_held() {
    let mut art = CoverArtState {
        desired_key: Some("b".to_string()),
        held_key: Some("a".to_string()),
        status: CoverArtStatus::Loading,
    };
    assert!(!art.fetch_cover_art("a"));
    assert_eq!(art.status, CoverArtStatus::Loading);
    assert!(art.fetch_cover_art("b"));
    assert_eq!(art.cover_art_fetched("a".to_string(), true), FetchedArt::Discard);
    assert_eq!(art.held_key.as_deref(), Some("a"));
    assert_eq!(art.cover_art_fetched("b".to_string(), true), FetchedArt::Store);
    assert_eq!(art.held_key.as_deref(), Some("b"));
    assert_eq!(art.status, CoverArtStatus::Loaded);
    art.status = CoverArtStatus::Idle;
    assert!(!art.fetch_cover_art("b"));
    assert_eq!(art.status, CoverArtStatus::Loaded);
    assert_eq!(art.cover_art_fetched("b".to_string(), false), FetchedArt::Clear);
    assert_eq!(art.held_key, None);
    assert_eq!(art.status, CoverArtStatus::Failed);
}
