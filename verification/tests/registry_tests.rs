use verba::bindings::{ShortcutBindingError, RegisteredShortcutBinding};
use verba::hotkeys::{Platform, ShortcutAction};
use verba::maclayout::CG_EVENT_FLAG_MASK_CONTROL;
use verba::registry::{
    mac_fn_combo_matches, parse_shortcut_bindings, plan_shortcut_registration,
    restore_registered_shortcuts, unregister_registered_bindings, RegisteredShortcuts,
    RegistrationStep,
};

fn strings(v: &[&str]) -> Vec<String> {
    v.iter().map(|s| s.to_string()).collect()
}

#[test]
fn bindings_parse_in_order_and_keep_normalized_text() {
    let regs = parse_shortcut_bindings(
        &strings(&["  Ctrl + Space ", "F8"]),
        ShortcutAction::Hold,
        Platform::Other,
    )
    .expect("both parse");
    assert_eq!(regs.len(), 2);
    assert_eq!(regs[0].requested_hotkey, "Ctrl+Space");
    assert_eq!(regs[1].requested_hotkey, "F8");
    let err = parse_shortcut_bindings(&strings(&["F8", "Space"]), ShortcutAction::Toggle, Platform::Other)
        .err()
        .expect("plain key is refused");
    assert_eq!(err, ShortcutBindingError::PolicyViolation(ShortcutAction::Toggle));
    let err = parse_shortcut_bindings(&strings(&["Ctrl+Nope"]), ShortcutAction::Hold, Platform::Other)
        .err()
        .expect("unknown key");
    assert_eq!(err, ShortcutBindingError::InvalidFormat(ShortcutAction::Hold));
}

#[test]
fn duplicate_bindings_across_actions_are_refused() {
    let err = plan_shortcut_registration(
        &strings(&["Ctrl+Space"]),
        &strings(&["ctrl+space"]),
        Platform::Other,
    )
    .err()
    .expect("same shortcut twice");
    assert_eq!(err, ShortcutBindingError::DuplicateBindings);
    assert_eq!(
        err.message(),
        "Each shortcut must be unique across hold and hands-free actions."
    );
}

#[test]
fn registration_steps_commit_or_roll_back() {
    let plan = plan_shortcut_registration(
        &strings(&["Ctrl+Space"]),
        &strings(&["Alt+Space"]),
        Platform::Other,
    )
    .expect("valid plan");
    assert!(matches!(
        plan.next_registration_step(Platform::Other, 0, false),
        RegistrationStep::RegisterGlobal(ShortcutAction::Hold, _)
    ));
    assert!(matches!(
        plan.next_registration_step(Platform::Other, 1, false),
        RegistrationStep::RegisterGlobal(ShortcutAction::Toggle, _)
    ));
    match plan.next_registration_step(Platform::Other, 1, true) {
        RegistrationStep::Abort(undo, e) => {
            assert_eq!(undo.len(), 1);
            assert_eq!(undo[0].key, "Space");
            assert_eq!(e, ShortcutBindingError::Unavailable(ShortcutAction::Toggle));
        }
        _ => panic!("a failed registration aborts"),
    }
    match plan.next_registration_step(Platform::Other, 2, false) {
        RegistrationStep::Commit(c) => {
            assert_eq!(c.hold.len(), 1);
            assert_eq!(c.toggle.len(), 1);
        }
        _ => panic!("all registered"),
    }
    assert!(matches!(
        plan.next_registration_step(Platform::MacOs, 0, false),
        RegistrationStep::EnsureEventTap(ShortcutAction::Hold)
    ));
}

#[test]
fn clearing_and_restoring_bindings() {
    let plan = plan_shortcut_registration(
        &strings(&["Ctrl+Space", "F8"]),
        &strings(&["Alt+Space"]),
        Platform::Other,
    )
    .expect("valid plan");
    let mut current = match plan.next_registration_step(Platform::Other, 3, false) {
        RegistrationStep::Commit(c) => c,
        _ => panic!("all registered"),
    };
    let previous = current.clone();
    let to_unregister = current.unregister_registered_shortcuts(Platform::Other);
    assert_eq!(to_unregister.len(), 3);
    assert!(current.hold.is_empty() && current.toggle.is_empty());
    assert_eq!(unregister_registered_bindings(&plan.hold, Platform::Other).len(), 2);
    assert!(unregister_registered_bindings(&plan.hold, Platform::MacOs).is_empty());

    let restored =
        restore_registered_shortcuts(previous.clone(), Platform::Other, &[true, false], &[true]);
    assert_eq!(restored.hold.len(), 1);
    assert!(matches!(&restored.hold[0], RegisteredShortcutBinding::Global(s) if s.key == "Space"));
    assert_eq!(restored.toggle.len(), 1);
    let kept = restore_registered_shortcuts(previous, Platform::MacOs, &[false, false], &[false]);
    assert_eq!(kept.hold.len(), 2);
    assert_eq!(RegisteredShortcuts::new().hold.len(), 0);
}

#[test]
fn fn_combinations_match_key_and_exact_modifiers() {
    let binding = verba::bindings::parse_shortcut_binding_value(
        "Fn+Ctrl+Space",
        ShortcutAction::Toggle,
        Platform::MacOs,
    )
    .expect("Fn+Ctrl+Space");
    let fn_binding = binding.mac_fn().expect("an Fn binding");
    assert!(mac_fn_combo_matches(&fn_binding, 0x31, CG_EVENT_FLAG_MASK_CONTROL));
    assert!(!mac_fn_combo_matches(&fn_binding, 0x31, 0));
    assert!(!mac_fn_combo_matches(&fn_binding, 0x30, CG_EVENT_FLAG_MASK_CONTROL));
    let fn_only = verba::bindings::parse_shortcut_binding_value("fn", ShortcutAction::Hold, Platform::MacOs)
        .expect("Fn")
        .mac_fn()
        .expect("an Fn binding");
    assert!(!mac_fn_combo_matches(&fn_only, 0x31, 0));
    let shortcuts = RegisteredShortcuts { hold: Vec::new(), toggle: vec![binding] };
    assert!(shortcuts.action_matches_fn_combo(ShortcutAction::Toggle, 0x31, CG_EVENT_FLAG_MASK_CONTROL));
    assert!(!shortcuts.action_matches_fn_combo(ShortcutAction::Hold, 0x31, CG_EVENT_FLAG_MASK_CONTROL));
    assert!(shortcuts.fn_combo_exists());
    assert!(shortcuts.has_mac_fn_binding(ShortcutAction::Toggle));
    assert!(!shortcuts.has_fn_only_binding(ShortcutAction::Toggle));
}
