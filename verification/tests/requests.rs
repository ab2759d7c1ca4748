use playback::ids::{
    spotify_item_identity, ContextKind, PlayContextId, PlayableId, PlayableKind,
};
use playback::items::RepeatState;
use playback::native_load::librespot_load_request;
use playback::request::{
    api_playback_body, api_playback_offset_json, native_load_request, native_restore_load_request,
    trim_api_playback_uris, LoadContextOptions, LoadSource, NativePlaybackRecoverySnapshot,
    PlayingTrack, MAX_API_PLAYBACK_URIS,
};
use serde_json::Value;

fn playable_track(id: &str) -> PlayableId {
    PlayableId::from_id(PlayableKind::Track, id).unwrap()
}

fn playable_episode(id: &str) -> PlayableId {
    PlayableId::from_id(PlayableKind::Episode, id).unwrap()
}

fn context(kind: ContextKind, id: &str) -> PlayContextId {
    PlayContextId::from_id(kind, id).unwrap()
}

fn object(members: Vec<(&str, Value)>) -> Value {
    let mut map = serde_json::Map::new();
    for (key, value) in members {
        map.insert(key.to_string(), value);
    }
    Value::Object(map)
}

fn many_tracks(count: usize) -> Vec<PlayableId> {
    (0..count).map(|index| playable_track(&format!("{index:022}"))).collect::<Vec<_>>()
}

fn snapshot() -> NativePlaybackRecoverySnapshot {
    NativePlaybackRecoverySnapshot {
        context_uri: None,
        uris: None,
        offset: None,
        expected_track_uri: None,
        track_duration_ms: None,
        position_ms: 0,
        desired_playing: true,
        shuffle: false,
        repeat: RepeatState::Off,
    }
}

#[test]
fn trim_api_playback_uris_leaves_small_requests_unchanged() {
    let uris = vec![
        playable_track("0000000000000000000001"),
        playable_track("0000000000000000000002"),
    ];

    let (trimmed, offset) = trim_api_playback_uris(uris.clone(), Some(1));

    assert_eq!(trimmed, uris);
    assert_eq!(offset, Some(1));
}

#[test]
fn trim_api_playback_uris_keeps_selected_track_inside_window() {
    let uris = (0..150)
        .map(|index| playable_track(&format!("{index:022}")))
        .collect::<Vec<_>>();

    let (trimmed, offset) = trim_api_playback_uris(uris.clone(), Some(60));

    assert_eq!(trimmed.len(), MAX_API_PLAYBACK_URIS);
    assert_eq!(offset, Some(20));
    assert_eq!(trimmed[offset.unwrap()].uri(), uris[60].uri());
}

#[test]
fn trim_api_playback_uris_slides_window_near_end() {
    let uris = (0..150)
        .map(|index| playable_track(&format!("{index:022}")))
        .collect::<Vec<_>>();

    let (trimmed, offset) = trim_api_playback_uris(uris.clone(), Some(149));

    assert_eq!(trimmed.len(), MAX_API_PLAYBACK_URIS);
    assert_eq!(offset, Some(99));
    assert_eq!(trimmed[offset.unwrap()].uri(), uris[149].uri());
}

#[test]
fn trim_keeps_a_list_of_the_greatest_length() {
    let uris = many_tracks(100);
    let (trimmed, offset) = trim_api_playback_uris(uris.clone(), Some(500));
    assert_eq!(trimmed, uris);
    assert_eq!(offset, Some(500));
}

#[test]
fn trim_without_an_offset_starts_at_the_first_item() {
    let uris = many_tracks(101);
    let (trimmed, offset) = trim_api_playback_uris(uris.clone(), None);
    assert_eq!(trimmed, uris[0..100].to_vec());
    assert_eq!(offset, Some(0));
}

#[test]
fn trim_takes_an_offset_behind_the_end_as_the_last_item() {
    let uris = many_tracks(130);
    let (trimmed, offset) = trim_api_playback_uris(uris.clone(), Some(1000));
    assert_eq!(trimmed, uris[30..130].to_vec());
    assert_eq!(offset, Some(99));
}

#[test]
fn trim_is_not_applied_twice() {
    let (once, offset) = trim_api_playback_uris(many_tracks(250), Some(120));
    let (twice, again) = trim_api_playback_uris(once.clone(), offset);
    assert_eq!(once, twice);
    assert_eq!(offset, again);
}

#[test]
fn native_restore_request_preserves_paused_position_and_options() {
    let snapshot = NativePlaybackRecoverySnapshot {
        context_uri: Some("spotify:playlist:context".to_string()),
        uris: None,
        offset: Some(3),
        expected_track_uri: Some("spotify:track:current".to_string()),
        track_duration_ms: Some(60_000),
        position_ms: 42_000,
        desired_playing: false,
        shuffle: true,
        repeat: RepeatState::Track,
    };

    let request = native_restore_load_request(&snapshot).unwrap();

    assert!(!request.start_playing);
    assert_eq!(request.seek_to, 42_000);
    assert!(matches!(
        request.playing_track.as_ref(),
        Some(PlayingTrack::Uri(uri)) if uri == "spotify:track:current"
    ));
    assert!(matches!(
        request.context_options.as_ref(),
        Some(options) if options.shuffle && options.repeat && options.repeat_track
    ));
    assert_eq!(request.source, LoadSource::Context("spotify:playlist:context".to_string()));
}

#[test]
fn native_restore_request_clamps_position_to_track_duration() {
    let snapshot = NativePlaybackRecoverySnapshot {
        context_uri: None,
        uris: Some(vec!["spotify:track:finished".to_string()]),
        offset: Some(0),
        expected_track_uri: Some("spotify:track:finished".to_string()),
        track_duration_ms: Some(389_094),
        position_ms: 395_562,
        desired_playing: true,
        shuffle: false,
        repeat: RepeatState::Off,
    };

    let request = native_restore_load_request(&snapshot).unwrap();

    assert_eq!(request.seek_to, 389_093);
    assert_eq!(
        request.source,
        LoadSource::Tracks(vec!["spotify:track:finished".to_string()])
    );
}

#[test]
fn restore_needs_a_context_or_a_list() {
    assert_eq!(native_restore_load_request(&snapshot()), None);
    let mut empty = snapshot();
    empty.uris = Some(Vec::new());
    assert_eq!(native_restore_load_request(&empty), None);
}

#[test]
fn restore_falls_back_to_the_position_in_the_list() {
    let mut saved = snapshot();
    saved.uris = Some(vec!["spotify:track:a".to_string(), "spotify:track:b".to_string()]);
    saved.offset = Some(1);
    saved.repeat = RepeatState::Context;
    saved.position_ms = 7;
    let request = native_restore_load_request(&saved).unwrap();
    assert_eq!(request.playing_track, Some(PlayingTrack::Index(1)));
    assert_eq!(request.seek_to, 7);
    assert_eq!(
        request.context_options,
        Some(LoadContextOptions { shuffle: false, repeat: true, repeat_track: false })
    );
}

#[test]
fn restore_prefers_the_context_over_the_list() {
    let mut saved = snapshot();
    saved.context_uri = Some("spotify:album:x".to_string());
    saved.uris = Some(vec!["spotify:track:a".to_string()]);
    let request = native_restore_load_request(&saved).unwrap();
    assert_eq!(request.source, LoadSource::Context("spotify:album:x".to_string()));
    assert_eq!(request.playing_track, None);
}

#[test]
fn restore_of_a_track_without_length_starts_at_its_beginning() {
    let mut saved = snapshot();
    saved.track_duration_ms = Some(0);
    saved.position_ms = 5;
    assert_eq!(saved.restore_position_ms(), 0);
    saved.track_duration_ms = None;
    assert_eq!(saved.restore_position_ms(), 5);
}

#[test]
fn api_playback_offset_uses_track_uri_for_context_playback() {
    let uris = vec![
        playable_track("0000000000000000000001"),
        playable_track("0000000000000000000002"),
    ];

    let offset = api_playback_offset_json(Some(&uris), Some(1));

    assert_eq!(
        offset,
        Some(object(vec![("uri", Value::from("spotify:track:0000000000000000000001"))]))
    );
}

#[test]
fn api_playback_offset_uses_position_for_uri_list_playback() {
    let offset = api_playback_offset_json(None, Some(1));

    assert_eq!(offset, Some(object(vec![("position", Value::from(1))])));
}

#[test]
fn api_playback_offset_falls_back_to_position_when_context_has_no_uri() {
    let offset = api_playback_offset_json(None, Some(3));

    assert_eq!(offset, Some(object(vec![("position", Value::from(3))])));
}

#[test]
fn api_playback_offset_takes_an_empty_list_for_none() {
    assert_eq!(
        api_playback_offset_json(Some(&[]), Some(4)),
        Some(object(vec![("position", Value::from(4))]))
    );
    assert_eq!(api_playback_offset_json(None, None), None);
}

#[test]
fn body_of_a_context_names_it_and_the_track_to_start_at() {
    let album = context(ContextKind::Album, "abc");
    let uris = vec![playable_episode("e1")];
    assert_eq!(
        api_playback_body(Some(&album), Some(&uris), Some(9)),
        Some(object(vec![
            ("context_uri", Value::from("spotify:album:abc")),
            ("offset", object(vec![("uri", Value::from("spotify:episode:e1"))])),
        ]))
    );
    assert_eq!(
        api_playback_body(Some(&album), None, None),
        Some(object(vec![("context_uri", Value::from("spotify:album:abc"))]))
    );
}

#[test]
fn body_of_a_list_names_its_uris_in_order() {
    let uris = vec![playable_track("a"), playable_episode("b")];
    assert_eq!(
        api_playback_body(None, Some(&uris), Some(1)),
        Some(object(vec![
            (
                "uris",
                Value::from(vec!["spotify:track:a".to_string(), "spotify:episode:b".to_string()])
            ),
            ("offset", object(vec![("position", Value::from(1))])),
        ]))
    );
    assert_eq!(api_playback_body(None, None, Some(1)), None);
}

#[test]
fn uris_carry_their_kind() {
    assert_eq!(playable_track("1").uri(), "spotify:track:1");
    assert_eq!(playable_episode("2").uri(), "spotify:episode:2");
    assert_eq!(context(ContextKind::Artist, "3").uri(), "spotify:artist:3");
    assert_eq!(context(ContextKind::Album, "4").uri(), "spotify:album:4");
    assert_eq!(context(ContextKind::Playlist, "5").uri(), "spotify:playlist:5");
    assert_eq!(context(ContextKind::Show, "6").uri(), "spotify:show:6");
    assert_eq!(playable_track("aZ9").id(), "aZ9");
}

#[test]
fn identifiers_hold_letters_and_digits_only() {
    assert!(PlayableId::from_id(PlayableKind::Track, "spotify:track:1").is_none());
    assert!(PlayableId::from_id(PlayableKind::Episode, "a b").is_none());
    assert!(PlayableId::from_id(PlayableKind::Track, "").is_some());
    for kind in [
        ContextKind::Artist,
        ContextKind::Album,
        ContextKind::Playlist,
        ContextKind::Show,
    ] {
        assert!(PlayContextId::from_id(kind, "a-b").is_none());
        assert!(PlayContextId::from_id(kind, "ab").is_some());
    }
}

#[test]
fn identity_is_what_follows_the_last_colon() {
    assert_eq!(spotify_item_identity("spotify:track:abc"), "abc");
    assert_eq!(spotify_item_identity("abc"), "abc");
    assert_eq!(spotify_item_identity("abc:"), "");
    assert_eq!(spotify_item_identity(""), "");
    assert_eq!(
        spotify_item_identity(&playable_track("xyz").uri()),
        spotify_item_identity(playable_track("xyz").id())
    );
}

#[test]
fn native_load_of_a_context_starts_at_the_first_uri() {
    let playlist = Some(context(ContextKind::Playlist, "p"));
    let uris = Some(vec![playable_track("t"), playable_track("u")]);
    let request = native_load_request(&playlist, &uris, Some(1)).unwrap();
    assert_eq!(request.source, LoadSource::Context("spotify:playlist:p".to_string()));
    assert_eq!(request.playing_track, Some(PlayingTrack::Uri("spotify:track:t".to_string())));
    assert!(request.start_playing);
    assert_eq!(request.seek_to, 0);
    assert_eq!(request.context_options, None);
}

#[test]
fn native_load_of_a_context_without_uris_starts_at_the_offset() {
    let show = Some(context(ContextKind::Show, "s"));
    let request = native_load_request(&show, &None, Some(4)).unwrap();
    assert_eq!(request.playing_track, Some(PlayingTrack::Index(4)));
    let request = native_load_request(&show, &Some(Vec::new()), Some(5)).unwrap();
    assert_eq!(request.playing_track, Some(PlayingTrack::Index(5)));
    let request = native_load_request(&show, &None, Some(1usize << 40)).unwrap();
    assert_eq!(request.playing_track, None);
}

#[test]
fn native_load_of_a_list_takes_its_uris() {
    let uris = Some(vec![playable_track("t"), playable_episode("e")]);
    let request = native_load_request(&None, &uris, Some(1)).unwrap();
    assert_eq!(
        request.source,
        LoadSource::Tracks(vec!["spotify:track:t".to_string(), "spotify:episode:e".to_string()])
    );
    assert_eq!(request.playing_track, Some(PlayingTrack::Index(1)));
    assert_eq!(native_load_request(&None, &None, Some(1)), None);
}

#[test]
fn the_native_player_is_handed_a_context_with_its_options() {
    let mut saved = snapshot();
    saved.context_uri = Some("spotify:album:x".to_string());
    saved.expected_track_uri = Some("spotify:track:t".to_string());
    saved.position_ms = 12;
    saved.shuffle = true;
    saved.repeat = RepeatState::Context;
    let request = librespot_load_request(native_restore_load_request(&saved).unwrap());
    assert!(request.start_playing);
    assert_eq!(request.seek_to, 12);
    assert!(matches!(
        request.playing_track.as_ref(),
        Some(librespot_connect::PlayingTrack::Uri(uri)) if uri == "spotify:track:t"
    ));
    assert!(matches!(
        request.context_options.as_ref(),
        Some(librespot_connect::LoadContextOptions::Options(options))
            if options.shuffle && options.repeat && !options.repeat_track
    ));
    assert!(format!("{request:?}").contains("Uri(\"spotify:album:x\")"));
}

#[test]
fn the_native_player_is_handed_tracks_in_their_order() {
    let uris = Some(vec![playable_track("t"), playable_track("u")]);
    let request = librespot_load_request(native_load_request(&None, &uris, Some(1)).unwrap());
    assert!(request.start_playing);
    assert_eq!(request.seek_to, 0);
    assert!(request.context_options.is_none());
    assert!(matches!(
        request.playing_track,
        Some(librespot_connect::PlayingTrack::Index(1))
    ));
    assert!(format!("{request:?}")
        .contains("Tracks([\"spotify:track:t\", \"spotify:track:u\"])"));
    let request = librespot_load_request(native_load_request(&None, &uris, None).unwrap());
    assert!(request.playing_track.is_none());
}
