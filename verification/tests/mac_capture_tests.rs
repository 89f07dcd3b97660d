use verba::bindings::parse_shortcut_binding_value;
use verba::eventtap::build_mac_fn_capture_candidate;
use verba::hotkeys::{Platform, ShortcutAction};
use verba::maclayout::{
    mac_capture_token_for_keycode, mac_keycode_for_code, CG_EVENT_FLAG_MASK_COMMAND,
};
use verba::registry::RegisteredShortcuts;

#[test]
fn builds_fn_only_combo_string_for_space() {
    let candidate = build_mac_fn_capture_candidate(0x31, 0).expect("candidate");
    assert_eq!(candidate, "Fn+Space");
}

#[test]
fn builds_fn_modifier_combo_string() {
    let candidate = build_mac_fn_capture_candidate(0x31, 0x0004_0000).expect("candidate");
    assert_eq!(candidate, "Fn+Ctrl+Space");
}

#[test]
fn matches_cmd_digit_shortcut_before_target_app_receives_it() {
    let binding = parse_shortcut_binding_value("Cmd+2", ShortcutAction::Toggle, Platform::MacOs)
        .expect("shortcut");
    let shortcuts = RegisteredShortcuts {
        hold: Vec::new(),
        toggle: vec![binding],
    };

    assert!(shortcuts.action_matches_global_shortcut(
        ShortcutAction::Toggle,
        0x13,
        CG_EVENT_FLAG_MASK_COMMAND
    ));
    assert!(!shortcuts.action_matches_global_shortcut(
        ShortcutAction::Hold,
        0x13,
        CG_EVENT_FLAG_MASK_COMMAND
    ));
    assert!(!shortcuts.action_matches_global_shortcut(
        ShortcutAction::Toggle,
        0x14,
        CG_EVENT_FLAG_MASK_COMMAND
    ));
}

#[test]
fn captured_keys_come_back_under_their_shortcut_names() {
    for (code, label) in [
        ("KeyA", Some("A")),
        ("Digit5", Some("5")),
        ("F13", Some("F13")),
        ("ArrowLeft", Some("Left")),
        ("Numpad0", Some("Num0")),
        ("Backslash", Some("\\")),
        ("CapsLock", None),
        ("AudioVolumeMute", None),
    ] {
        let keycode = mac_keycode_for_code(code).expect("a mac key");
        assert_eq!(mac_capture_token_for_keycode(keycode), label, "{code}");
    }
    assert_eq!(mac_capture_token_for_keycode(0x3f), None);
    assert_eq!(mac_keycode_for_code("Fn"), None);
}
