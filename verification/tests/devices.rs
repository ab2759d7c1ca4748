use playback::device::{
    native_device_preference_update, native_idle_device_preference_update,
    saved_device_matches_native_player, should_activate_native_for_playback,
    spotify_payload_confirms_native_device, stale_api_item_should_preserve_native_context,
    stale_without_native_player, DevicePayload, NativeActivationContext, NativeDevicePreferenceUpdate, StaleApiItemContext,
};
use playback::items::{api_confirms_native_info_is_current, Device, PlayableItem};
use playback::recovery::{
    NativeIdleRecoveryState, NATIVE_IDLE_RECOVERY_RETRY_INTERVAL,
};
use playback::time::Moment;

fn full_track(id: &str, name: &str) -> PlayableItem {
    PlayableItem::Track { id: Some(id.to_string()), name: name.to_string() }
}

fn playback_device(id: &str, name: &str) -> Device {
    Device { id: Some(id.to_string()), name: name.to_string(), volume_percent: Some(50) }
}

fn started() -> Moment {
    Moment { nanos: 1_000_000_000_000 }
}

fn later(start: Moment, nanos: u64) -> Moment {
    Moment { nanos: start.nanos + nanos as i64 }
}

const MILLI: u64 = 1_000_000;

#[test]
fn api_confirms_native_info_when_names_match() {
    let item = full_track("0000000000000000000001", "Current Song");

    assert!(api_confirms_native_info_is_current("Current Song", &item, Some("different-id")));
}

#[test]
fn api_confirms_native_info_when_current_id_matches_even_if_name_differs() {
    let item = full_track("0000000000000000000001", "Stranger Thing");

    assert!(api_confirms_native_info_is_current(
        "Greater Together",
        &item,
        Some("0000000000000000000001")
    ));
}

#[test]
fn api_does_not_confirm_stale_api_item_for_different_native_track() {
    let item = full_track("0000000000000000000001", "Old API Song");

    assert!(!api_confirms_native_info_is_current(
        "New Native Song",
        &item,
        Some("0000000000000000000002")
    ));
}

#[test]
fn an_item_without_identifier_confirms_nothing_by_it() {
    let local = PlayableItem::Track { id: None, name: "Local".to_string() };
    assert!(!api_confirms_native_info_is_current("Other", &local, None));
    assert!(api_confirms_native_info_is_current("Local", &local, None));
    assert!(!api_confirms_native_info_is_current("Other", &PlayableItem::Unknown, Some("x")));
    let episode = PlayableItem::Episode { id: "e".to_string(), name: "Talk".to_string() };
    assert!(api_confirms_native_info_is_current("Other", &episode, Some("e")));
    assert!(!api_confirms_native_info_is_current("Other", &episode, None));
}

#[test]
fn native_device_preference_update_persists_when_no_saved_device() {
    assert_eq!(
        native_device_preference_update(None, false, false),
        NativeDevicePreferenceUpdate::Persist
    );
}

#[test]
fn native_device_preference_update_persists_when_explicitly_requested() {
    assert_eq!(
        native_device_preference_update(Some("phone-device"), true, false),
        NativeDevicePreferenceUpdate::Persist
    );
}

#[test]
fn native_device_preference_update_keeps_existing_saved_device_for_fallback() {
    assert_eq!(
        native_device_preference_update(Some("phone-device"), false, false),
        NativeDevicePreferenceUpdate::KeepExistingPreference
    );
}

#[test]
fn native_device_preference_update_refreshes_saved_native_device() {
    assert_eq!(
        native_device_preference_update(Some("old-native-device"), false, true),
        NativeDevicePreferenceUpdate::Persist
    );
}

#[test]
fn idle_poll_exposes_native_device_when_it_is_preferred() {
    assert_eq!(
        native_idle_device_preference_update(None, false),
        Some(NativeDevicePreferenceUpdate::Persist)
    );
    assert_eq!(
        native_idle_device_preference_update(Some("old-native-device"), true),
        Some(NativeDevicePreferenceUpdate::Persist)
    );
}

#[test]
fn idle_poll_preserves_saved_external_device() {
    assert_eq!(native_idle_device_preference_update(Some("phone-device"), false), None);
}

#[test]
fn idle_recovery_is_limited_to_two_spaced_attempts() {
    let mut recovery = NativeIdleRecoveryState::default();
    recovery.observe_player_instance(Some(1));
    let started_at = started();

    assert!(recovery.should_attempt_idle_recovery(started_at));
    assert!(!recovery.should_attempt_idle_recovery(later(
        started_at,
        NATIVE_IDLE_RECOVERY_RETRY_INTERVAL - MILLI
    )));
    assert!(recovery.should_attempt_idle_recovery(later(
        started_at,
        NATIVE_IDLE_RECOVERY_RETRY_INTERVAL
    )));
    assert!(!recovery.should_attempt_idle_recovery(later(
        started_at,
        NATIVE_IDLE_RECOVERY_RETRY_INTERVAL + NATIVE_IDLE_RECOVERY_RETRY_INTERVAL
    )));
}

#[test]
fn stale_api_playback_does_not_rearm_idle_recovery() {
    let mut recovery = NativeIdleRecoveryState::default();
    recovery.observe_player_instance(Some(1));
    let started_at = started();

    assert!(recovery.should_attempt_idle_recovery(started_at));
    assert!(recovery.should_attempt_idle_recovery(later(
        started_at,
        NATIVE_IDLE_RECOVERY_RETRY_INTERVAL
    )));
    recovery.observe_player_instance(Some(1));
    assert!(!recovery.should_attempt_idle_recovery(later(
        started_at,
        NATIVE_IDLE_RECOVERY_RETRY_INTERVAL * 2
    )));
}

#[test]
fn replacement_player_rearms_idle_recovery() {
    let mut recovery = NativeIdleRecoveryState::default();
    recovery.observe_player_instance(Some(1));
    let started_at = started();
    recovery.settle_current_episode(started_at);

    recovery.observe_player_instance(Some(2));

    assert!(recovery.should_attempt_idle_recovery(later(started_at, MILLI)));
}

#[test]
fn explicit_activation_settles_current_idle_episode() {
    let mut recovery = NativeIdleRecoveryState::default();
    recovery.observe_player_instance(Some(1));
    let started_at = started();

    recovery.settle_current_episode(started_at);

    assert!(!recovery.should_attempt_idle_recovery(later(
        started_at,
        NATIVE_IDLE_RECOVERY_RETRY_INTERVAL
    )));
}

#[test]
fn a_lost_player_rearms_idle_recovery_too() {
    let mut recovery = NativeIdleRecoveryState::default();
    recovery.observe_player_instance(Some(1));
    recovery.settle_current_episode(started());
    recovery.observe_player_instance(None);
    assert!(recovery.should_attempt_idle_recovery(started()));
}

#[test]
fn a_clock_that_goes_back_grants_no_attempt() {
    let mut recovery = NativeIdleRecoveryState::default();
    assert!(recovery.should_attempt_idle_recovery(started()));
    assert!(!recovery.should_attempt_idle_recovery(Moment { nanos: 0 }));
    assert_eq!(Moment { nanos: 3 }.nanos_since(Moment { nanos: 10 }), 0);
    assert_eq!(Moment { nanos: 10 }.nanos_since(Moment { nanos: 3 }), 7);
    assert_eq!(Moment { nanos: i64::MAX }.nanos_since(Moment { nanos: i64::MIN }), u64::MAX);
}

#[test]
fn spotify_payload_confirms_native_device_by_id() {
    let payload = DevicePayload { devices: vec![playback_device("native-device", "spotatui")] };

    assert!(spotify_payload_confirms_native_device(&payload, "native-device"));
}

#[test]
fn spotify_payload_does_not_confirm_stale_native_name_with_different_id() {
    let payload = DevicePayload { devices: vec![playback_device("stale-device", "spotatui")] };

    assert!(!spotify_payload_confirms_native_device(&payload, "native-device"));
}

#[test]
fn saved_device_is_native_by_identifier_or_by_listed_name() {
    let devices = Some(DevicePayload {
        devices: vec![
            playback_device("phone", "My Phone"),
            playback_device("old-native", "SpotaTUI"),
        ],
    });
    assert!(saved_device_matches_native_player(Some("n"), Some("n"), &None, "spotatui"));
    assert!(saved_device_matches_native_player(
        Some("old-native"),
        Some("n"),
        &devices,
        "spotatui"
    ));
    assert!(!saved_device_matches_native_player(Some("phone"), Some("n"), &devices, "spotatui"));
    assert!(!saved_device_matches_native_player(None, None, &devices, "spotatui"));
    assert!(!saved_device_matches_native_player(Some("n"), None, &None, "spotatui"));
}

#[test]
fn native_activation_uses_native_when_no_current_device_or_saved_device() {
    assert!(should_activate_native_for_playback(NativeActivationContext {
        player_connected: true,
        ..Default::default()
    }));
}

#[test]
fn native_activation_uses_native_when_saved_device_is_unavailable() {
    assert!(should_activate_native_for_playback(NativeActivationContext {
        player_connected: true,
        saved_external_confirmed_available: false,
        ..Default::default()
    }));
}

#[test]
fn native_activation_keeps_confirmed_external_device() {
    assert!(!should_activate_native_for_playback(NativeActivationContext {
        player_connected: true,
        current_device_id_present: true,
        ..Default::default()
    }));
}

#[test]
fn native_activation_keeps_confirmed_saved_external_device() {
    assert!(!should_activate_native_for_playback(NativeActivationContext {
        player_connected: true,
        saved_external_confirmed_available: true,
        ..Default::default()
    }));
}

#[test]
fn native_activation_uses_native_for_saved_native_device() {
    assert!(should_activate_native_for_playback(NativeActivationContext {
        player_connected: true,
        saved_device_matches_native: true,
        saved_external_confirmed_available: true,
        ..Default::default()
    }));
}

#[test]
fn native_activation_uses_native_for_stale_native_name_match() {
    assert!(should_activate_native_for_playback(NativeActivationContext {
        player_connected: true,
        current_device_id_present: true,
        current_device_name_matches_native: true,
        native_has_fresh_activity: false,
        ..Default::default()
    }));
}

#[test]
fn native_activation_ignores_disconnected_player() {
    assert!(!should_activate_native_for_playback(NativeActivationContext {
        player_connected: false,
        saved_device_matches_native: true,
        ..Default::default()
    }));
}

#[test]
fn stale_api_item_keeps_native_metadata_when_native_was_active() {
    assert!(stale_api_item_should_preserve_native_context(StaleApiItemContext {
        native_info_present: true,
        api_item_present: true,
        api_confirms_native_info: false,
        native_track_id_present: true,
        api_item_matches_native_track: false,
        native_streaming_was_active: true,
        native_activation_pending: false,
        api_device_is_native: false,
    }));
}

#[test]
fn stale_api_item_keeps_native_metadata_during_activation() {
    assert!(stale_api_item_should_preserve_native_context(StaleApiItemContext {
        native_info_present: true,
        api_item_present: true,
        api_confirms_native_info: false,
        native_track_id_present: true,
        api_item_matches_native_track: false,
        native_streaming_was_active: false,
        native_activation_pending: true,
        api_device_is_native: false,
    }));
}

#[test]
fn stale_api_item_keeps_native_context_before_native_metadata_arrives() {
    assert!(stale_api_item_should_preserve_native_context(StaleApiItemContext {
        native_info_present: false,
        api_item_present: true,
        api_confirms_native_info: false,
        native_track_id_present: true,
        api_item_matches_native_track: false,
        native_streaming_was_active: true,
        native_activation_pending: false,
        api_device_is_native: false,
    }));
}

#[test]
fn stale_native_metadata_clears_after_playback_leaves_native_device() {
    assert!(!stale_api_item_should_preserve_native_context(StaleApiItemContext {
        native_info_present: true,
        api_item_present: true,
        api_confirms_native_info: false,
        native_track_id_present: true,
        api_item_matches_native_track: false,
        native_streaming_was_active: false,
        native_activation_pending: false,
        api_device_is_native: false,
    }));
}

#[test]
fn confirmed_api_item_no_longer_keeps_native_metadata() {
    assert!(!stale_api_item_should_preserve_native_context(StaleApiItemContext {
        native_info_present: true,
        api_item_present: true,
        api_confirms_native_info: true,
        native_track_id_present: true,
        api_item_matches_native_track: true,
        native_streaming_was_active: true,
        native_activation_pending: false,
        api_device_is_native: true,
    }));
}

#[test]
fn matching_api_item_without_native_metadata_can_update_context() {
    assert!(!stale_api_item_should_preserve_native_context(StaleApiItemContext {
        native_info_present: false,
        api_item_present: true,
        api_confirms_native_info: false,
        native_track_id_present: true,
        api_item_matches_native_track: true,
        native_streaming_was_active: true,
        native_activation_pending: false,
        api_device_is_native: false,
    }));
}

#[test]
fn api_item_without_native_track_id_can_update_context() {
    assert!(!stale_api_item_should_preserve_native_context(StaleApiItemContext {
        native_info_present: false,
        api_item_present: true,
        api_confirms_native_info: false,
        native_track_id_present: false,
        api_item_matches_native_track: false,
        native_streaming_was_active: true,
        native_activation_pending: false,
        api_device_is_native: false,
    }));
}

#[test]
fn without_a_native_player_staleness_is_a_matter_of_three_facts() {
    assert!(stale_without_native_player(true, true, false));
    assert!(!stale_without_native_player(false, true, false));
    assert!(!stale_without_native_player(true, false, false));
    assert!(!stale_without_native_player(true, true, true));
}
