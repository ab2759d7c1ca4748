use playback::device::DevicePayload;
use playback::effects::{ApiCall, ApiMethod, Effect, IoEvent, KeptRequest, Outbox};
use playback::ids::{ContextKind, PlayContextId, PlayableId, PlayableKind};
use playback::items::{Device, PlaybackContext, RepeatState};
use playback::recovery::{NativeIdleRecoveryPhase, NativeIdleRecoveryState};
use playback::request::{LoadSource, PlayingTrack};
use playback::start::{ApiStage, LoadStage, PlaybackRequest, StartNext, StartPlan};
use playback::state::{
    NativePlaybackOrigin, NativePlayer, NativeTrackInfo, PendingStart, PlaybackBackend,
    PlaybackEnv, PlaybackState,
};
use playback::time::Moment;
use serde_json::Value;

fn at(secs: i64) -> Moment {
    Moment { nanos: secs * 1_000_000_000 }
}

fn state() -> PlaybackState {
    PlaybackState {
        current_playback_context: None,
        devices: None,
        is_streaming_active: false,
        native_activation_pending: false,
        native_backend_pending: false,
        native_device_id: None,
        native_playback_origin: None,
        native_is_playing: None,
        native_track_info: None,
        native_load_watchdog: None,
        native_idle_recovery: NativeIdleRecoveryState::default(),
        last_device_activation: None,
        last_track_id: None,
        instant_since_last_current_playback_poll: at(0),
        is_fetching_current_playback: true,
        pending_start_playback: None,
        pending_volume: None,
        last_dispatched_volume: None,
        is_volume_change_in_flight: false,
        seek_ms: None,
        song_progress_ms: 0,
        shuffle_enabled: false,
        enable_global_song_count: false,
        status_message: None,
        status_message_expires_at: None,
    }
}

fn player() -> NativePlayer {
    NativePlayer {
        instance: 1,
        connected: true,
        available: true,
        device_id: "native".to_string(),
        device_name: "spotatui".to_string(),
        volume: 40,
    }
}

fn env(now: i64, player: Option<NativePlayer>) -> PlaybackEnv {
    PlaybackEnv {
        now: at(now),
        player,
        fresh_native_activity: false,
        saved_device_id: None,
        restore_generation: None,
    }
}

fn device(id: &str, name: &str) -> Device {
    Device { id: Some(id.to_string()), name: name.to_string(), volume_percent: Some(50) }
}

fn context(id: &str, name: &str) -> PlaybackContext {
    PlaybackContext {
        device: device(id, name),
        shuffle_state: false,
        repeat_state: RepeatState::Off,
        is_playing: true,
        item: None,
        has_context: false,
        progress_ms: None,
    }
}

fn track(id: &str) -> PlayableId {
    PlayableId::from_id(PlayableKind::Track, id).unwrap()
}

fn album() -> PlayContextId {
    PlayContextId::from_id(ContextKind::Album, "a").unwrap()
}

fn of_album() -> PlaybackRequest {
    PlaybackRequest { context: Some(album()), uris: None, offset: Some(2) }
}

fn of_list() -> PlaybackRequest {
    PlaybackRequest { context: None, uris: Some(vec![track("t"), track("u")]), offset: Some(1) }
}

fn resume() -> PlaybackRequest {
    PlaybackRequest { context: None, uris: None, offset: None }
}

fn plan(request: PlaybackRequest, shuffle: bool) -> StartPlan {
    StartPlan { request, shuffle }
}

fn kept_album() -> KeptRequest {
    KeptRequest {
        context_uri: Some("spotify:album:a".to_string()),
        uris: None,
        offset: Some(2),
    }
}

fn kept_list() -> KeptRequest {
    KeptRequest {
        context_uri: None,
        uris: Some(vec!["spotify:track:t".to_string(), "spotify:track:u".to_string()]),
        offset: Some(1),
    }
}

fn recorded(request: KeptRequest, shuffle: bool) -> Effect {
    Effect::RecordNativePlaybackRequest {
        request,
        desired_playing: true,
        shuffle,
        repeat: RepeatState::Off,
    }
}

fn status(message: &str, ttl_secs: u64) -> Effect {
    Effect::SetStatusMessage { message: message.to_string(), ttl_secs }
}

fn remote_state() -> PlaybackState {
    let mut app = state();
    app.current_playback_context = Some(context("phone", "Phone"));
    app
}

fn play_on_native(body: Option<Value>) -> ApiCall {
    ApiCall {
        method: ApiMethod::Put,
        path: "me/player/play",
        query: vec![("device_id", "native".to_string())],
        body,
    }
}

fn position(index: usize) -> Value {
    let mut members = serde_json::Map::new();
    members.insert("position".to_string(), Value::from(index));
    Value::Object(members)
}

fn album_body() -> Value {
    let mut members = serde_json::Map::new();
    members.insert("context_uri".to_string(), Value::from("spotify:album:a"));
    members.insert("offset".to_string(), position(2));
    Value::Object(members)
}

#[test]
fn a_start_cuts_a_long_list() {
    let uris = (0..150).map(|i| track(&format!("{i:022}"))).collect::<Vec<_>>();
    let app = state();
    let mut out = Outbox::new();
    let start = app.start_playback(
        PlaybackRequest { context: None, uris: Some(uris.clone()), offset: Some(60) },
        &mut out,
    );
    assert_eq!(start.request.uris, Some(uris[40..140].to_vec()));
    assert_eq!(start.request.offset, Some(20));
    assert_eq!(out.effects, vec![Effect::ClearNativeShuffleSession]);

    let start = app.start_playback(
        PlaybackRequest { context: Some(album()), uris: Some(uris.clone()), offset: Some(60) },
        &mut out,
    );
    assert_eq!(start.request.uris, Some(uris));
    assert_eq!(start.request.offset, Some(60));
}

#[test]
fn a_resume_keeps_the_shuffled_order() {
    let mut app = state();
    app.shuffle_enabled = true;
    let mut out = Outbox::new();
    assert_eq!(app.start_playback(resume(), &mut out), plan(resume(), true));
    assert!(out.effects.is_empty());
    app.current_playback_context = Some(context("phone", "Phone"));
    assert_eq!(app.start_playback(resume(), &mut out), plan(resume(), false));
}

#[test]
fn a_start_during_recovery_is_kept() {
    let mut app = state();
    let mut out = Outbox::new();
    let next = app.start_after_recovery_check(
        &env(9, Some(player())),
        plan(of_list(), false),
        true,
        &mut out,
    );
    assert_eq!(next, StartNext::Done);
    assert_eq!(out.effects, vec![Effect::ParkStartPlayback(kept_list())]);
    assert_eq!(app, state());
}

#[test]
fn a_native_start_loads_directly() {
    let mut app = state();
    let mut out = Outbox::new();
    let next = app.start_after_recovery_check(
        &env(9, Some(player())),
        plan(of_album(), false),
        false,
        &mut out,
    );
    assert_eq!(
        out.effects,
        vec![
            Effect::Transfer,
            Effect::Activate,
            Effect::PersistDeviceId("native".to_string()),
            recorded(kept_album(), false),
        ]
    );
    assert!(app.is_streaming_active);
    assert_eq!(app.native_device_id.as_deref(), Some("native"));
    assert_eq!(app.native_playback_origin, Some(NativePlaybackOrigin::Context));
    assert_eq!(app.last_device_activation, Some(at(9)));
    assert_eq!(
        app.native_idle_recovery.phase,
        NativeIdleRecoveryPhase::Idle { attempts: 2, last_attempt: at(9) }
    );
    let (load, stage) = match next {
        StartNext::Load(load, stage) => (load, stage),
        other => panic!("{other:?}"),
    };
    assert_eq!(load.source, LoadSource::Context("spotify:album:a".to_string()));
    assert_eq!(load.playing_track, Some(PlayingTrack::Index(2)));
    assert_eq!(
        stage,
        LoadStage::Direct {
            plan: plan(of_album(), false),
            fallback: Some("native".to_string()),
        }
    );

    app.current_playback_context = Some(context("native", "spotatui"));
    app.shuffle_enabled = true;
    let mut out = Outbox::new();
    assert_eq!(
        app.start_after_load(&env(10, Some(player())), stage, Ok(()), &mut out),
        StartNext::Done
    );
    assert_eq!(
        out.effects,
        vec![Effect::SetShuffle(false), Effect::ParkStartPlayback(kept_album())]
    );
    assert_eq!(app.native_load_watchdog, Some(at(10)));
    assert!(!app.shuffle_enabled);
}

#[test]
fn a_refused_load_of_a_context_goes_to_the_web_api() {
    let mut app = state();
    let mut out = Outbox::new();
    let stage = LoadStage::Direct {
        plan: plan(of_album(), true),
        fallback: Some("native".to_string()),
    };
    let next =
        app.start_after_load(&env(10, Some(player())), stage, Err("no".to_string()), &mut out);
    assert!(out.effects.is_empty());
    let stage = match next {
        StartNext::Api(call, stage) => {
            assert_eq!(call, play_on_native(Some(album_body())));
            stage
        }
        other => panic!("{other:?}"),
    };
    let next = app.start_after_api(&env(11, Some(player())), stage, Ok(()), &mut out);
    let stage = match next {
        StartNext::Api(call, stage) => {
            assert_eq!(
                call,
                ApiCall {
                    method: ApiMethod::Put,
                    path: "me/player/shuffle",
                    query: vec![
                        ("state", "true".to_string()),
                        ("device_id", "native".to_string()),
                    ],
                    body: None,
                }
            );
            stage
        }
        other => panic!("{other:?}"),
    };
    assert!(out.effects.is_empty());
    let next =
        app.start_after_api(&env(12, Some(player())), stage, Err("odd".to_string()), &mut out);
    assert_eq!(next, StartNext::Done);
    assert_eq!(
        out.effects,
        vec![
            Effect::HandleError("odd".to_string()),
            Effect::ParkStartPlayback(kept_album()),
            Effect::Dispatch(IoEvent::GetCurrentPlayback),
        ]
    );
    assert!(app.shuffle_enabled);
    assert_eq!(app.native_load_watchdog, Some(at(12)));
    assert_eq!(app.instant_since_last_current_playback_poll, at(6));
}

#[test]
fn a_start_that_failed_on_both_routes_is_dropped() {
    let mut app = state();
    app.pending_start_playback =
        Some(PendingStart { request: kept_album(), recovery_attempts: 1 });
    let mut out = Outbox::new();
    let stage = ApiStage::ContextPlay {
        plan: plan(of_album(), true),
        device_id: "native".to_string(),
    };
    let next =
        app.start_after_api(&env(11, Some(player())), stage, Err("no".to_string()), &mut out);
    assert_eq!(next, StartNext::Done);
    assert_eq!(app.pending_start_playback, None);
    assert_eq!(
        out.effects,
        vec![Effect::HandleError("Failed to start native playback: no".to_string())]
    );
}

#[test]
fn a_refused_load_of_a_list_is_an_error() {
    let mut app = state();
    let mut out = Outbox::new();
    let stage = LoadStage::Direct { plan: plan(of_list(), false), fallback: None };
    let next =
        app.start_after_load(&env(10, Some(player())), stage, Err("no".to_string()), &mut out);
    assert_eq!(next, StartNext::Done);
    assert_eq!(
        out.effects,
        vec![Effect::HandleError("Failed to start native playback: no".to_string())]
    );
    assert_eq!(app, state());
}

#[test]
fn a_replay_takes_the_web_api() {
    let mut app = state();
    app.pending_start_playback =
        Some(PendingStart { request: kept_album(), recovery_attempts: 1 });
    let mut out = Outbox::new();
    let next = app.start_after_recovery_check(
        &env(9, Some(player())),
        plan(of_album(), false),
        false,
        &mut out,
    );
    match next {
        StartNext::Api(call, ApiStage::ContextPlay { device_id, .. }) => {
            assert_eq!(call, play_on_native(Some(album_body())));
            assert_eq!(device_id, "native");
        }
        other => panic!("{other:?}"),
    }

    for (request, attempts) in [
        (kept_album(), 0),
        (KeptRequest { context_uri: None, ..kept_album() }, 1),
        (KeptRequest { uris: Some(Vec::new()), ..kept_album() }, 1),
        (KeptRequest { offset: Some(3), ..kept_album() }, 1),
        (KeptRequest { offset: None, ..kept_album() }, 1),
    ] {
        let mut app = state();
        app.pending_start_playback =
            Some(PendingStart { request, recovery_attempts: attempts });
        let next = app.start_after_recovery_check(
            &env(9, Some(player())),
            plan(of_album(), false),
            false,
            &mut out,
        );
        assert!(matches!(next, StartNext::Load(_, LoadStage::Direct { .. })));
    }
}

#[test]
fn a_replayed_list_is_recognised_by_its_uris() {
    let mut app = state();
    app.pending_start_playback =
        Some(PendingStart { request: kept_list(), recovery_attempts: 1 });
    let mut out = Outbox::new();
    let next = app.start_after_recovery_check(
        &env(9, Some(player())),
        plan(of_list(), false),
        false,
        &mut out,
    );
    match next {
        StartNext::Load(load, stage) => {
            assert_eq!(
                load.source,
                LoadSource::Tracks(vec![
                    "spotify:track:t".to_string(),
                    "spotify:track:u".to_string(),
                ])
            );
            assert_eq!(
                stage,
                LoadStage::Direct { plan: plan(of_list(), false), fallback: None }
            );
        }
        other => panic!("{other:?}"),
    }
    assert_eq!(app.native_playback_origin, Some(NativePlaybackOrigin::RawList));
}

#[test]
fn a_shuffled_start_is_tried_in_an_order_of_its_own() {
    let mut app = state();
    let mut out = Outbox::new();
    let next = app.start_after_recovery_check(
        &env(9, Some(player())),
        plan(of_list(), true),
        false,
        &mut out,
    );
    let native = match next {
        StartNext::TryShuffled(native) => native,
        other => panic!("{other:?}"),
    };
    assert_eq!(native.device_id, "native");
    assert_eq!(native.device_name, "spotatui");
    let mut out = Outbox::new();
    let next = app.start_after_shuffled(native, false, &mut out);
    assert!(matches!(next, StartNext::Load(_, LoadStage::Direct { .. })));
    assert!(out.effects.is_empty());

    let mut app = state();
    let next = app.start_after_recovery_check(
        &env(9, Some(player())),
        plan(of_list(), true),
        false,
        &mut Outbox::new(),
    );
    if let StartNext::TryShuffled(native) = next {
        assert_eq!(app.start_after_shuffled(native, true, &mut out), StartNext::Done);
    }
    assert!(out.effects.is_empty());
}

#[test]
fn a_native_resume_plays_what_is_known() {
    let mut app = state();
    app.native_track_info = Some(NativeTrackInfo { name: "Song".to_string() });
    app.is_streaming_active = true;
    let mut out = Outbox::new();
    let next = app.start_after_recovery_check(
        &env(9, Some(player())),
        plan(resume(), false),
        false,
        &mut out,
    );
    assert_eq!(next, StartNext::Done);
    assert_eq!(
        out.effects,
        vec![
            Effect::Activate,
            Effect::PersistDeviceId("native".to_string()),
            Effect::SetNativePlaybackIntent(true),
            Effect::Play,
        ]
    );
}

#[test]
fn a_native_resume_of_nothing_known_asks_the_web_api() {
    let mut app = state();
    let mut out = Outbox::new();
    let next = app.start_after_recovery_check(
        &env(9, Some(player())),
        plan(resume(), false),
        false,
        &mut out,
    );
    let stage = match next {
        StartNext::Api(call, stage) => {
            assert_eq!(call, play_on_native(None));
            stage
        }
        other => panic!("{other:?}"),
    };
    assert_eq!(
        stage,
        ApiStage::NativeResume {
            device_id: "native".to_string(),
            device_name: "spotatui".to_string(),
        }
    );
    let mut out = Outbox::new();
    app.start_after_api(&env(10, None), stage, Err("no".to_string()), &mut out);
    assert_eq!(out.effects, vec![status("No playback to resume on spotatui.", 4)]);

    let mut out = Outbox::new();
    let mut app = remote_state();
    app.current_playback_context.as_mut().unwrap().is_playing = false;
    let stage = ApiStage::NativeResume {
        device_id: "native".to_string(),
        device_name: "spotatui".to_string(),
    };
    app.start_after_api(&env(10, None), stage, Ok(()), &mut out);
    assert_eq!(out.effects, vec![Effect::Dispatch(IoEvent::GetCurrentPlayback)]);
    assert_eq!(app.native_device_id.as_deref(), Some("native"));
    assert!(app.current_playback_context.as_ref().unwrap().is_playing);
}

#[test]
fn an_external_device_is_not_taken_over() {
    let mut app = remote_state();
    let mut out = Outbox::new();
    let next = app.start_after_recovery_check(
        &env(9, Some(player())),
        plan(of_album(), true),
        false,
        &mut out,
    );
    let stage = match next {
        StartNext::Api(call, stage) => {
            assert_eq!(
                call,
                ApiCall {
                    method: ApiMethod::Put,
                    path: "me/player/play",
                    query: Vec::new(),
                    body: Some(album_body()),
                }
            );
            stage
        }
        other => panic!("{other:?}"),
    };
    assert!(out.effects.is_empty());
    assert_eq!(app, remote_state());

    let next = app.start_after_api(&env(10, None), stage, Ok(()), &mut out);
    let stage = match next {
        StartNext::Api(call, stage) => {
            assert_eq!(call.path, "me/player/shuffle");
            assert_eq!(call.query, vec![("state", "true".to_string())]);
            stage
        }
        other => panic!("{other:?}"),
    };
    assert_eq!(app.start_after_api(&env(11, None), stage, Ok(()), &mut out), StartNext::Done);
    assert!(app.shuffle_enabled);
    assert!(app.current_playback_context.as_ref().unwrap().shuffle_state);
    assert!(out.effects.is_empty());
}

#[test]
fn a_start_without_a_device_falls_back_to_the_native_player() {
    let mut app = remote_state();
    let mut out = Outbox::new();
    let next = app.start_after_api(
        &env(20, Some(player())),
        ApiStage::ConnectPlay { plan: plan(of_list(), true) },
        Err("No active device found".to_string()),
        &mut out,
    );
    assert_eq!(
        out.effects,
        vec![Effect::Activate, Effect::PersistDeviceId("native".to_string())]
    );
    assert_eq!(app.instant_since_last_current_playback_poll, at(14));
    assert!(app.is_streaming_active);
    let stage = match next {
        StartNext::Load(_, stage) => stage,
        other => panic!("{other:?}"),
    };
    let mut out = Outbox::new();
    app.start_after_load(&env(21, Some(player())), stage, Ok(()), &mut out);
    assert_eq!(
        out.effects,
        vec![
            Effect::SetShuffle(true),
            recorded(kept_list(), true),
            Effect::ParkStartPlayback(kept_list()),
        ]
    );
    assert_eq!(app.native_load_watchdog, Some(at(21)));

    let mut out = Outbox::new();
    let stage = LoadStage::Fallback { plan: plan(of_list(), true) };
    app.start_after_load(&env(21, None), stage, Err("no".to_string()), &mut out);
    assert_eq!(
        out.effects,
        vec![Effect::HandleError("Failed to start native playback: no".to_string())]
    );
}

#[test]
fn a_resume_without_a_device_is_retried_on_the_native_one() {
    let mut app = remote_state();
    let mut out = Outbox::new();
    let next = app.start_after_api(
        &env(20, Some(player())),
        ApiStage::ConnectPlay { plan: plan(resume(), true) },
        Err("NO_ACTIVE_DEVICE".to_string()),
        &mut out,
    );
    let stage = match next {
        StartNext::Api(call, stage) => {
            assert_eq!(call, play_on_native(None));
            stage
        }
        other => panic!("{other:?}"),
    };
    assert_eq!(stage, ApiStage::FallbackResume { device_name: "spotatui".to_string() });
    let mut out = Outbox::new();
    app.start_after_api(&env(21, None), stage, Ok(()), &mut out);
    assert_eq!(out.effects, vec![Effect::Dispatch(IoEvent::GetCurrentPlayback)]);
    let stage = ApiStage::FallbackResume { device_name: "spotatui".to_string() };
    let mut out = Outbox::new();
    app.start_after_api(&env(21, None), stage, Err("no".to_string()), &mut out);
    assert_eq!(out.effects, vec![status("No playback to resume on spotatui.", 4)]);
}

#[test]
fn a_start_without_a_device_is_kept_while_a_player_is_expected() {
    let mut app = remote_state();
    app.native_backend_pending = true;
    let mut out = Outbox::new();
    let connect = || ApiStage::ConnectPlay { plan: plan(of_album(), false) };
    let next = app.start_after_api(
        &env(20, None),
        connect(),
        Err("NO_ACTIVE_DEVICE".to_string()),
        &mut out,
    );
    assert_eq!(next, StartNext::Done);
    assert_eq!(
        out.effects,
        vec![
            Effect::ParkStartPlayback(kept_album()),
            status("Reconnecting native streaming; playback will resume.", 6),
        ]
    );
    app.native_backend_pending = false;
    let mut out = Outbox::new();
    app.start_after_api(&env(20, None), connect(), Err("NO_ACTIVE_DEVICE".to_string()), &mut out);
    assert_eq!(out.effects, vec![Effect::HandleError("NO_ACTIVE_DEVICE".to_string())]);
    let mut out = Outbox::new();
    app.start_after_api(
        &env(20, Some(player())),
        connect(),
        Err("surprise".to_string()),
        &mut out,
    );
    assert_eq!(out.effects, vec![Effect::HandleError("surprise".to_string())]);
}

#[test]
fn a_saved_external_device_keeps_playback_from_the_native_player() {
    let mut app = state();
    app.devices = Some(DevicePayload { devices: vec![device("phone", "Phone")] });
    let mut here = env(9, Some(player()));
    here.saved_device_id = Some("phone".to_string());
    assert!(!app.should_activate_native_streaming_for_playback(&here));
    assert!(matches!(app.start_playback_backend(&here), PlaybackBackend::Connect));
    app.devices = Some(DevicePayload { devices: vec![device("phone", "Spotatui")] });
    assert!(app.should_activate_native_streaming_for_playback(&here));
    app.devices = None;
    assert!(app.should_activate_native_streaming_for_playback(&here));
    assert!(matches!(app.start_playback_backend(&here), PlaybackBackend::Native(_)));

    let mut out = Outbox::new();
    app.start_after_recovery_check(&here, plan(of_list(), false), false, &mut out);
    assert_eq!(
        out.effects,
        vec![Effect::Transfer, Effect::Activate, recorded(kept_list(), false)]
    );
}

#[test]
fn the_origin_of_a_resume_is_the_one_before() {
    let mut app = state();
    assert_eq!(
        app.requested_native_playback_origin(&resume()),
        NativePlaybackOrigin::RawList
    );
    let mut playing = context("phone", "Phone");
    playing.has_context = true;
    app.current_playback_context = Some(playing);
    assert_eq!(
        app.requested_native_playback_origin(&resume()),
        NativePlaybackOrigin::Context
    );
    app.native_playback_origin = Some(NativePlaybackOrigin::RawList);
    assert_eq!(
        app.requested_native_playback_origin(&resume()),
        NativePlaybackOrigin::RawList
    );
    assert_eq!(
        app.requested_native_playback_origin(&of_album()),
        NativePlaybackOrigin::Context
    );
    assert_eq!(
        app.requested_native_playback_origin(&of_list()),
        NativePlaybackOrigin::RawList
    );
}

#[test]
fn a_context_route_needs_the_native_device() {
    let mut app = state();
    assert_eq!(app.resolve_native_playback_route(&of_album()), None);
    app.native_device_id = Some("native".to_string());
    assert_eq!(
        app.resolve_native_playback_route(&of_album()).as_deref(),
        Some("native")
    );
    assert_eq!(app.resolve_native_playback_route(&of_list()), None);
}
