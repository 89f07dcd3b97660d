use verba::bindings::{parse_shortcut_binding_value, ShortcutBindingError};
use verba::hotkeys::normalize_requested_hotkeys;
use verba::hotkeys::{Platform, ShortcutAction};
use verba::settings::{
    active_recording_mode, default_custom_vocabulary, default_format_enabled,
    default_hold_hotkeys, default_include_clipboard_context, default_play_sound_cues,
    default_settings, default_toggle_hotkeys,
    default_skip_formatter_in_terminals, hotkey_list_from, is_toggle_mode,
    normalize_recording_mode, normalize_settings_for_save, normalize_transcription_language,
    recording_mode_from_settings, HotkeyListValue, RecordingModeKind,
};

#[test]
fn defaults_match_a_fresh_install() {
    assert!(!default_format_enabled());
    assert!(default_play_sound_cues());
    assert!(default_skip_formatter_in_terminals());
    assert!(default_include_clipboard_context());
    assert_eq!(default_custom_vocabulary(), "");
    let mac = default_settings(Platform::MacOs);
    assert_eq!(mac.hold_hotkeys, vec!["Cmd+Space".to_string()]);
    assert_eq!(mac.toggle_hotkeys, vec!["Option+Space".to_string()]);
    let other = default_settings(Platform::Other);
    assert_eq!(other.hold_hotkeys, vec!["Ctrl+Space".to_string()]);
    assert_eq!(other.toggle_hotkeys, vec!["Alt+Space".to_string()]);
    assert_eq!(other.recording_mode, "hold");
    assert_eq!(other.language, "auto");
    assert_eq!(other.api_base_url, "https://api.openai.com/v1");
}

#[test]
fn stored_hotkey_fields_become_lists() {
    assert_eq!(
        hotkey_list_from(Some(HotkeyListValue::Single("Alt+R".to_string()))),
        vec!["Alt+R".to_string()]
    );
    assert_eq!(
        hotkey_list_from(Some(HotkeyListValue::Multiple(vec![
            "Ctrl+Shift+1".to_string(),
            "F8".to_string()
        ]))),
        vec!["Ctrl+Shift+1".to_string(), "F8".to_string()]
    );
    assert!(hotkey_list_from(None).is_empty());
}

#[test]
fn recording_mode_normalizes_to_hold_or_toggle() {
    assert_eq!(normalize_recording_mode(" ToGgLe "), "toggle");
    assert_eq!(normalize_recording_mode("toggled"), "hold");
    assert_eq!(normalize_recording_mode(""), "hold");
    let again = normalize_recording_mode(&normalize_recording_mode("TOGGLE"));
    assert_eq!(again, "toggle");
}

#[test]
fn language_normalizes_to_allowed_codes() {
    assert_eq!(normalize_transcription_language(" ZH-tw "), "zh-TW");
    assert_eq!(normalize_transcription_language("EN"), "en");
    assert_eq!(normalize_transcription_language("klingon"), "auto");
    assert_eq!(normalize_transcription_language(""), "auto");
    for code in ["auto", "en", "zh", "zh-TW", "ja", "ko", "es", "fr", "de"] {
        assert_eq!(normalize_transcription_language(code), code);
    }
}

#[test]
fn toggle_mode_is_read_ignoring_case() {
    let mut s = default_settings(Platform::Other);
    s.recording_mode = "TOGGLE".to_string();
    assert!(is_toggle_mode(&s));
    assert_eq!(recording_mode_from_settings(&s), RecordingModeKind::Toggle);
    s.recording_mode = " toggle".to_string();
    assert!(!is_toggle_mode(&s));
    assert_eq!(recording_mode_from_settings(&s), RecordingModeKind::Hold);
}

#[test]
fn active_mode_follows_the_session() {
    assert_eq!(active_recording_mode(None), None);
    assert_eq!(active_recording_mode(Some("Toggle")), Some(RecordingModeKind::Toggle));
    assert_eq!(active_recording_mode(Some("hold")), Some(RecordingModeKind::Hold));
}

#[test]
fn save_normalizes_and_is_stable() {
    let mut s = default_settings(Platform::Other);
    s.hold_hotkeys = vec![" ctrl + space ".to_string(), "CTRL+SPACE".to_string()];
    s.toggle_hotkeys = vec!["Alt+Space".to_string()];
    s.recording_mode = " Toggle".to_string();
    s.language = "JA".to_string();
    let saved = normalize_settings_for_save(s, Platform::Other).expect("valid settings");
    assert_eq!(saved.hold_hotkeys, vec!["ctrl+space".to_string()]);
    assert_eq!(saved.recording_mode, "toggle");
    assert_eq!(saved.language, "ja");
    let resaved =
        normalize_settings_for_save(saved.clone(), Platform::Other).expect("still valid");
    assert_eq!(resaved.hold_hotkeys, saved.hold_hotkeys);
    assert_eq!(resaved.toggle_hotkeys, saved.toggle_hotkeys);
    assert_eq!(resaved.recording_mode, saved.recording_mode);
    assert_eq!(resaved.language, saved.language);
}

#[test]
fn save_rejects_empty_hotkey_lists() {
    let mut s = default_settings(Platform::Other);
    s.hold_hotkeys = vec![" ".to_string()];
    let e = normalize_settings_for_save(s, Platform::Other).err().expect("empty hold");
    assert_eq!(e, ShortcutBindingError::EmptyShortcut(ShortcutAction::Hold));
    assert_eq!(e.message(), "Hold to speak shortcut cannot be empty.");
    let mut s = default_settings(Platform::Other);
    s.toggle_hotkeys = Vec::new();
    let e = normalize_settings_for_save(s, Platform::Other).err().expect("empty toggle");
    assert_eq!(e, ShortcutBindingError::EmptyShortcut(ShortcutAction::Toggle));
    assert_eq!(e.message(), "Hands-free shortcut cannot be empty.");
}

#[test]
fn default_hotkeys_are_normalized_distinct_and_parse() {
    for platform in [Platform::MacOs, Platform::Other] {
        let hold = default_hold_hotkeys(platform);
        let toggle = default_toggle_hotkeys(platform);
        assert_eq!(normalize_requested_hotkeys(&hold, platform), hold);
        assert_eq!(normalize_requested_hotkeys(&toggle, platform), toggle);
        assert!(!hold[0].eq_ignore_ascii_case(&toggle[0]));
        assert!(parse_shortcut_binding_value(&hold[0], ShortcutAction::Hold, platform).is_ok());
        assert!(parse_shortcut_binding_value(&toggle[0], ShortcutAction::Toggle, platform).is_ok());
    }
}
