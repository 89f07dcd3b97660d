use verba::bindings::{
    parse_shortcut_binding_value, validate_mac_fn_shortcut_policy, validate_shortcut_policy,
    MacFnShortcut, RegisteredShortcutBinding, Shortcut,
};
use verba::hotkeys::{Platform, ShortcutAction};

#[test]
fn accepts_single_modifier_plus_key() {
    let shortcut = Shortcut::parse("Ctrl+Space").expect("shortcut should parse");
    assert!(validate_shortcut_policy(&shortcut, ShortcutAction::Hold).is_ok());
}

#[test]
fn accepts_two_modifiers_plus_key() {
    let shortcut = Shortcut::parse("Ctrl+Alt+Space").expect("shortcut should parse");
    assert!(validate_shortcut_policy(&shortcut, ShortcutAction::Hold).is_ok());
}

#[test]
fn accepts_single_function_key() {
    let shortcut = Shortcut::parse("F8").expect("shortcut should parse");
    assert!(validate_shortcut_policy(&shortcut, ShortcutAction::Hold).is_ok());
}

#[test]
fn rejects_plain_non_modifier_key() {
    let shortcut = Shortcut::parse("Space").expect("shortcut should parse");
    assert!(validate_shortcut_policy(&shortcut, ShortcutAction::Hold).is_err());
}

#[test]
fn rejects_three_modifiers_plus_key() {
    let shortcut = Shortcut::parse("Ctrl+Alt+Shift+Space").expect("shortcut should parse");
    assert!(validate_shortcut_policy(&shortcut, ShortcutAction::Hold).is_err());
}

#[test]
fn rejects_modifier_only_shortcuts_at_parse_time() {
    assert!(Shortcut::parse("Ctrl+Alt").is_none());
}

#[test]
fn accepts_fn_shortcut_binding() {
    let binding = parse_shortcut_binding_value("Fn", ShortcutAction::Hold, Platform::MacOs)
        .expect("Fn should parse");
    assert!(matches!(
        binding,
        RegisteredShortcutBinding::MacFn(MacFnShortcut { base: None })
    ));
}

#[test]
fn accepts_fn_plus_key_binding() {
    let binding = parse_shortcut_binding_value("Fn+Space", ShortcutAction::Toggle, Platform::MacOs)
        .expect("Fn+Space should parse");
    assert!(matches!(
        binding,
        RegisteredShortcutBinding::MacFn(MacFnShortcut { base: Some(_) })
    ));
}

#[test]
fn accepts_fn_plus_modifier_plus_key_policy() {
    let shortcut = Shortcut::parse("Ctrl+Space").expect("shortcut should parse");
    assert!(validate_mac_fn_shortcut_policy(&shortcut, ShortcutAction::Toggle).is_ok());
}

#[test]
fn parsed_shortcuts_carry_modifier_bits_and_key_code_name() {
    let s = Shortcut::parse("ctrl+shift+space").expect("shortcut should parse");
    assert_eq!(s.mods, verba::bindings::MOD_CONTROL | verba::bindings::MOD_SHIFT);
    assert_eq!(s.key, "Space");
    let s = Shortcut::parse("Cmd+2").expect("shortcut should parse");
    assert_eq!(s.mods, verba::bindings::MOD_SUPER);
    assert_eq!(s.key, "Digit2");
    assert_eq!(verba::bindings::shortcut_modifier_count(&s), 1);
    assert!(verba::bindings::is_function_key("F24"));
    assert!(!verba::bindings::is_function_key("F25"));
}
