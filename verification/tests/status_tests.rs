use verba::hotkeys::Platform;
use verba::status::{
    app_config, app_display_name, app_log_prefix, app_temp_file_prefix, play_earcon,
    play_earcon_if_enabled, tray_state_label, tray_tooltip, AppConfig, Earcon, RuntimeStatus,
};

#[test]
fn status_changes_apply_only_given_fields() {
    let mut s = RuntimeStatus::initial();
    assert_eq!(s.last_message, "Ready");
    s.set_status(Some(true), None, Some(250), "Recording".to_string());
    assert!(s.is_recording);
    assert!(!s.is_processing);
    assert_eq!(s.mic_level, 100);
    s.set_status(None, Some(true), None, "Busy".to_string());
    assert!(s.is_recording && s.is_processing);
    assert_eq!(s.mic_level, 100);
    assert_eq!(s.last_message, "Busy");
}

#[test]
fn meter_readings_count_only_while_recording() {
    let mut s = RuntimeStatus::initial();
    assert!(!s.emit_mic_level(40));
    assert_eq!(s.mic_level, 0);
    s.set_status(Some(true), None, None, "Recording".to_string());
    assert!(s.emit_mic_level(140));
    assert_eq!(s.mic_level, 100);
    assert!(s.emit_mic_level(37));
    assert_eq!(s.mic_level, 37);
}

#[test]
fn tray_shows_recording_before_processing() {
    let mut s = RuntimeStatus::unavailable();
    assert_eq!(s.last_message, "State unavailable");
    assert_eq!(tray_state_label(&s), "Idle");
    assert!(!s.overlay_visible());
    s.is_processing = true;
    assert_eq!(tray_state_label(&s), "Processing");
    assert!(s.overlay_visible());
    s.is_recording = true;
    assert_eq!(tray_state_label(&s), "Recording");
    assert_eq!(tray_tooltip("Verba", &s), "Verba - Recording");
}

#[test]
fn earcons_map_to_system_sounds_on_mac() {
    assert_eq!(
        play_earcon(Earcon::Start, Platform::MacOs).as_deref(),
        Some("/System/Library/Sounds/Hero.aiff")
    );
    assert_eq!(
        play_earcon(Earcon::Success, Platform::MacOs).as_deref(),
        Some("/System/Library/Sounds/Glass.aiff")
    );
    assert_eq!(
        play_earcon(Earcon::Error, Platform::MacOs).as_deref(),
        Some("/System/Library/Sounds/Basso.aiff")
    );
    assert_eq!(play_earcon(Earcon::Error, Platform::Other), None);
    assert_eq!(play_earcon_if_enabled(false, Earcon::Start, Platform::MacOs), None);
}

#[test]
fn branding_falls_back_to_defaults() {
    let c = app_config(None);
    assert_eq!(app_display_name(&c), "Desktop Dictation");
    assert_eq!(app_log_prefix(&c), "app");
    assert_eq!(app_temp_file_prefix(&c), "app");
    let custom = app_config(Some(AppConfig {
        display_name: "Verba".to_string(),
        log_prefix: "verba".to_string(),
        temp_file_prefix: "verba-rec".to_string(),
    }));
    assert_eq!(app_display_name(&custom), "Verba");
    assert_eq!(app_temp_file_prefix(&custom), "verba-rec");
}
