use verba::bindings::parse_shortcut_binding_value;
use verba::eventtap::{
    decide_tap_event, pending_fn_press_fires, shortcut_event_outcome, KeyState, TapEffect,
    TapEventType, TapState,
};
use verba::hotkeys::{Platform, ShortcutAction};
use verba::maclayout::{
    CG_EVENT_FLAG_MASK_COMMAND, CG_EVENT_FLAG_MASK_CONTROL, MAC_FN_KEYCODE, NX_SECONDARYFNMASK,
};
use verba::registry::RegisteredShortcuts;
use verba::settings::RecordingModeKind;

fn fn_only_hold() -> RegisteredShortcuts {
    let binding =
        parse_shortcut_binding_value("Fn", ShortcutAction::Hold, Platform::MacOs).expect("Fn");
    RegisteredShortcuts { hold: vec![binding], toggle: Vec::new() }
}

#[test]
fn fn_press_and_release_drive_a_hold_binding() {
    let shortcuts = fn_only_hold();
    let mut state = TapState { fn_key_down: false, saw_non_fn_key: false };
    let down = decide_tap_event(
        &mut state,
        TapEventType::FlagsChanged,
        MAC_FN_KEYCODE,
        NX_SECONDARYFNMASK,
        false,
        false,
        &shortcuts,
    );
    assert!(down.swallow);
    assert!(state.fn_key_down);
    assert!(matches!(
        down.effects.as_slice(),
        [TapEffect::Dispatch(ShortcutAction::Hold, KeyState::Pressed)]
    ));
    let up = decide_tap_event(
        &mut state,
        TapEventType::FlagsChanged,
        MAC_FN_KEYCODE,
        0,
        false,
        false,
        &shortcuts,
    );
    assert!(up.swallow);
    assert!(!state.fn_key_down);
    assert!(matches!(
        up.effects.as_slice(),
        [TapEffect::CancelPendingFn, TapEffect::Dispatch(ShortcutAction::Hold, KeyState::Released)]
    ));
}

#[test]
fn capture_mode_reports_fn_combinations() {
    let shortcuts = RegisteredShortcuts::new();
    let mut state = TapState { fn_key_down: true, saw_non_fn_key: false };
    let key = decide_tap_event(
        &mut state,
        TapEventType::KeyDown,
        0x31,
        NX_SECONDARYFNMASK | CG_EVENT_FLAG_MASK_CONTROL,
        false,
        true,
        &shortcuts,
    );
    assert!(!key.swallow);
    assert!(state.saw_non_fn_key);
    assert!(matches!(
        key.effects.as_slice(),
        [TapEffect::EmitCapture(c)] if c == "Fn+Ctrl+Space"
    ));
    // Releasing Fn after a combination does not capture Fn alone.
    let up = decide_tap_event(
        &mut state,
        TapEventType::FlagsChanged,
        MAC_FN_KEYCODE,
        0,
        false,
        true,
        &shortcuts,
    );
    assert!(matches!(up.effects.as_slice(), [TapEffect::EmitFnState(false)]));
}

#[test]
fn unrelated_keys_pass_through() {
    let shortcuts = fn_only_hold();
    let mut state = TapState { fn_key_down: false, saw_non_fn_key: false };
    let d = decide_tap_event(&mut state, TapEventType::KeyDown, 0x00, 0, false, false, &shortcuts);
    assert!(!d.swallow);
    assert!(d.effects.is_empty());
}

#[test]
fn pending_fn_press_needs_a_combination_registered() {
    let only = fn_only_hold();
    assert!(!pending_fn_press_fires(true, true, &only, ShortcutAction::Hold));
    let combo = parse_shortcut_binding_value("Fn+Space", ShortcutAction::Toggle, Platform::MacOs)
        .expect("Fn+Space");
    let both = RegisteredShortcuts { hold: only.hold.clone(), toggle: vec![combo] };
    assert!(pending_fn_press_fires(true, true, &both, ShortcutAction::Hold));
    assert!(!pending_fn_press_fires(false, true, &both, ShortcutAction::Hold));
    assert!(!pending_fn_press_fires(true, false, &both, ShortcutAction::Hold));
}

#[test]
fn shortcut_events_start_and_stop_recordings() {
    let (pressed, released) = (KeyState::Pressed, KeyState::Released);
    let (hold, toggle) = (RecordingModeKind::Hold, RecordingModeKind::Toggle);
    assert_eq!(shortcut_event_outcome(None, hold, pressed), Some(hold));
    assert_eq!(shortcut_event_outcome(Some(hold), hold, released), Some(hold));
    assert_eq!(shortcut_event_outcome(Some(hold), hold, pressed), None);
    assert_eq!(shortcut_event_outcome(None, toggle, pressed), Some(toggle));
    assert_eq!(shortcut_event_outcome(Some(toggle), toggle, pressed), Some(toggle));
    assert_eq!(shortcut_event_outcome(Some(toggle), toggle, released), None);
    assert_eq!(shortcut_event_outcome(Some(toggle), hold, pressed), None);
    assert_eq!(shortcut_event_outcome(None, hold, released), None);
}

#[test]
fn registered_global_shortcut_is_swallowed() {
    let binding = parse_shortcut_binding_value("Cmd+2", ShortcutAction::Toggle, Platform::MacOs)
        .expect("shortcut");
    let shortcuts = RegisteredShortcuts { hold: Vec::new(), toggle: vec![binding] };
    let mut state = TapState { fn_key_down: false, saw_non_fn_key: false };
    let down = decide_tap_event(
        &mut state,
        TapEventType::KeyDown,
        0x13,
        CG_EVENT_FLAG_MASK_COMMAND,
        false,
        false,
        &shortcuts,
    );
    assert!(down.swallow);
    assert!(matches!(
        down.effects.as_slice(),
        [TapEffect::Log(_), TapEffect::Dispatch(ShortcutAction::Toggle, KeyState::Pressed)]
    ));
    let up = decide_tap_event(
        &mut state,
        TapEventType::KeyUp,
        0x13,
        CG_EVENT_FLAG_MASK_COMMAND,
        false,
        false,
        &shortcuts,
    );
    assert!(up.swallow);
    assert!(up.effects.is_empty());
    assert_eq!(state, TapState { fn_key_down: false, saw_non_fn_key: false });
}
