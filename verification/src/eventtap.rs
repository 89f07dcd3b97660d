//! Decisions taken on keyboard events: the macOS event tap that serves Fn and
//! global shortcuts, hotkey capture while the user records a new shortcut,
//! the delayed Fn press, and what a shortcut press or release does to the
//! recording.
use vstd::prelude::*;

use crate::bindings::{has_mod, MOD_ALT, MOD_CONTROL, MOD_SHIFT, MOD_SUPER};
use crate::hotkeys::ShortcutAction;
use crate::maclayout::{
    capture_token, mac_capture_token_for_keycode, mac_standard_modifiers_from_flags,
    mods_from_flags, MAC_FN_KEYCODE, NX_SECONDARYFNMASK,
};
use crate::registry::RegisteredShortcuts;
use crate::settings::RecordingModeKind;
use crate::text::{append_str, string_of};

verus! {

/// A shortcut key went down or came up.
#[derive(Clone, Copy, PartialEq, Eq, Structural, Debug)]
pub enum KeyState {
    Pressed,
    Released,
}

// ---------------------------------------------------------------------------
// Captured shortcut text
// ---------------------------------------------------------------------------

/// The text of a shortcut captured while Fn is held: `Fn`, then the held
/// modifiers in the order Cmd, Ctrl, Alt, Shift, then the key's token.
pub open spec fn capture_candidate(keycode: i64, flags: u64) -> Option<Seq<char>> {
    match capture_token(keycode) {
        None => None,
        Some(token) => {
            let m = mods_from_flags(flags);
            Some(
                "Fn"@ + (if has_mod(m, MOD_SUPER) {
                    "+Cmd"@
                } else {
                    Seq::empty()
                }) + (if has_mod(m, MOD_CONTROL) {
                    "+Ctrl"@
                } else {
                    Seq::empty()
                }) + (if has_mod(m, MOD_ALT) {
                    "+Alt"@
                } else {
                    Seq::empty()
                }) + (if has_mod(m, MOD_SHIFT) {
                    "+Shift"@
                } else {
                    Seq::empty()
                }) + "+"@ + token,
            )
        },
    }
}

pub fn build_mac_fn_capture_candidate(keycode: i64, flags: u64) -> (r: Option<String>)
    ensures
        match r {
            Some(s) => capture_candidate(keycode, flags) == Some(s@),
            None => capture_candidate(keycode, flags) is None,
        },
{
    let key = match mac_capture_token_for_keycode(keycode) {
        Some(k) => k,
        None => {
            return None;
        },
    };
    let m = mac_standard_modifiers_from_flags(flags);
    let mut parts: Vec<char> = Vec::new();
    append_str(&mut parts, "Fn");
    let ghost p0 = parts@;
    if m & MOD_SUPER != 0 {
        append_str(&mut parts, "+Cmd");
    }
    let ghost p1 = parts@;
    if m & MOD_CONTROL != 0 {
        append_str(&mut parts, "+Ctrl");
    }
    let ghost p2 = parts@;
    if m & MOD_ALT != 0 {
        append_str(&mut parts, "+Alt");
    }
    let ghost p3 = parts@;
    if m & MOD_SHIFT != 0 {
        append_str(&mut parts, "+Shift");
    }
    append_str(&mut parts, "+");
    append_str(&mut parts, key);
    assert(parts@ =~= capture_candidate(keycode, flags)->0);
    Some(string_of(&parts))
}

// ---------------------------------------------------------------------------
// The event tap
// ---------------------------------------------------------------------------

/// The kinds of Quartz events the tap listens to.
#[derive(Clone, Copy, PartialEq, Eq, Structural, Debug)]
pub enum TapEventType {
    KeyDown,
    KeyUp,
    FlagsChanged,
    TapDisabledByTimeout,
    TapDisabledByUserInput,
}

/// What the tap remembers between events.
#[derive(Clone, Copy, PartialEq, Eq, Structural, Debug)]
pub struct TapState {
    /// Whether the Fn key is currently down.
    pub fn_key_down: bool,
    /// Whether, during hotkey capture, a key was pressed while Fn was held.
    pub saw_non_fn_key: bool,
}

/// Something the app does in response to an event, in order.
pub enum TapEffect {
    /// Tell the settings window whether Fn is held (hotkey capture).
    EmitFnState(bool),
    /// Hand a captured shortcut to the settings window.
    EmitCapture(String),
    /// Press or release a shortcut action.
    Dispatch(ShortcutAction, KeyState),
    /// Press the action's Fn-only binding after a short delay, unless
    /// another key arrives first.
    SchedulePendingFn(ShortcutAction),
    /// Forget a scheduled Fn press.
    CancelPendingFn,
    /// Write a line to the debug log.
    Log(String),
}

pub ghost enum TapEffectView {
    EmitFnState(bool),
    EmitCapture(Seq<char>),
    Dispatch(ShortcutAction, KeyState),
    SchedulePendingFn(ShortcutAction),
    CancelPendingFn,
    Log(Seq<char>),
}

impl View for TapEffect {
    type V = TapEffectView;

    open spec fn view(&self) -> TapEffectView {
        match self {
            TapEffect::EmitFnState(b) => TapEffectView::EmitFnState(*b),
            TapEffect::EmitCapture(s) => TapEffectView::EmitCapture(s@),
            TapEffect::Dispatch(a, k) => TapEffectView::Dispatch(*a, *k),
            TapEffect::SchedulePendingFn(a) => TapEffectView::SchedulePendingFn(*a),
            TapEffect::CancelPendingFn => TapEffectView::CancelPendingFn,
            TapEffect::Log(s) => TapEffectView::Log(s@),
        }
    }
}

pub open spec fn effect_views(v: Seq<TapEffect>) -> Seq<TapEffectView> {
    v.map_values(|e: TapEffect| e@)
}

/// The outcome of one event: the effects to carry out, and whether the
/// event is swallowed (not passed on to the focused application).
pub struct TapDecision {
    pub effects: Vec<TapEffect>,
    pub swallow: bool,
}

pub open spec fn hold_log(state: KeyState) -> Seq<char> {
    "mac_event_tap_shortcut_event action=hold state="@ + match state {
        KeyState::Pressed => "Pressed"@,
        KeyState::Released => "Released"@,
    }
}

pub open spec fn toggle_log() -> Seq<char> {
    "mac_event_tap_shortcut_event action=toggle state=Pressed"@
}

pub open spec fn fn_pressed_in(flags: u64) -> bool {
    flags & NX_SECONDARYFNMASK != 0
}

/// The Fn key changed state (a `FlagsChanged` event for its key code).
pub open spec fn fn_change_spec(
    st: TapState,
    fn_pressed: bool,
    capture_active: bool,
    sc: RegisteredShortcuts,
) -> (TapState, Seq<TapEffectView>, bool) {
    if st.fn_key_down == fn_pressed {
        (st, Seq::empty(), false)
    } else if capture_active {
        let saw = if fn_pressed {
            false
        } else {
            st.saw_non_fn_key
        };
        (
            TapState { fn_key_down: fn_pressed, saw_non_fn_key: saw },
            seq![TapEffectView::EmitFnState(fn_pressed)] + if !fn_pressed && !saw {
                seq![TapEffectView::EmitCapture("Fn"@)]
            } else {
                Seq::empty()
            },
            false,
        )
    } else if fn_pressed {
        let ns = TapState { fn_key_down: true, ..st };
        if sc.spec_fn_combo_exists() {
            if sc.spec_has_fn_only(ShortcutAction::Hold) {
                (ns, seq![TapEffectView::SchedulePendingFn(ShortcutAction::Hold)], false)
            } else if sc.spec_has_fn_only(ShortcutAction::Toggle) {
                (ns, seq![TapEffectView::SchedulePendingFn(ShortcutAction::Toggle)], false)
            } else {
                (ns, Seq::empty(), false)
            }
        } else if sc.spec_has_fn_only(ShortcutAction::Hold) {
            (ns, seq![TapEffectView::Dispatch(ShortcutAction::Hold, KeyState::Pressed)], true)
        } else if sc.spec_has_fn_only(ShortcutAction::Toggle) {
            (ns, seq![TapEffectView::Dispatch(ShortcutAction::Toggle, KeyState::Pressed)], true)
        } else {
            (ns, Seq::empty(), false)
        }
    } else {
        let ns = TapState { fn_key_down: false, ..st };
        if sc.spec_has_mac_fn(ShortcutAction::Hold) {
            (
                ns,
                seq![
                    TapEffectView::CancelPendingFn,
                    TapEffectView::Dispatch(ShortcutAction::Hold, KeyState::Released),
                ],
                sc.spec_has_fn_only(ShortcutAction::Hold),
            )
        } else {
            (ns, seq![TapEffectView::CancelPendingFn], false)
        }
    }
}

/// A key other than Fn went down or up.
pub open spec fn key_spec(
    st: TapState,
    is_down: bool,
    keycode: i64,
    flags: u64,
    autorepeat: bool,
    capture_active: bool,
    sc: RegisteredShortcuts,
) -> (TapState, Seq<TapEffectView>, bool) {
    let fn_pressed = fn_pressed_in(flags);
    let is_repeat = is_down && autorepeat;
    let es = if is_down {
        KeyState::Pressed
    } else {
        KeyState::Released
    };
    if capture_active && fn_pressed && is_down {
        if is_repeat {
            (st, Seq::empty(), false)
        } else {
            (
                TapState { saw_non_fn_key: true, ..st },
                match capture_candidate(keycode, flags) {
                    Some(c) => seq![TapEffectView::EmitCapture(c)],
                    None => Seq::empty(),
                },
                false,
            )
        }
    } else if !capture_active && !fn_pressed && sc.spec_matches_global(
        ShortcutAction::Hold,
        keycode,
        flags,
    ) {
        (
            st,
            if is_repeat {
                Seq::empty()
            } else {
                seq![
                    TapEffectView::Log(hold_log(es)),
                    TapEffectView::Dispatch(ShortcutAction::Hold, es),
                ]
            },
            true,
        )
    } else if !capture_active && !fn_pressed && sc.spec_matches_global(
        ShortcutAction::Toggle,
        keycode,
        flags,
    ) {
        (
            st,
            if is_down && !is_repeat {
                seq![
                    TapEffectView::Log(toggle_log()),
                    TapEffectView::Dispatch(ShortcutAction::Toggle, KeyState::Pressed),
                ]
            } else {
                Seq::empty()
            },
            true,
        )
    } else if is_repeat || !fn_pressed {
        (st, Seq::empty(), false)
    } else if sc.spec_matches_fn_combo(ShortcutAction::Hold, keycode, flags) {
        (
            st,
            seq![TapEffectView::CancelPendingFn, TapEffectView::Dispatch(ShortcutAction::Hold, es)],
            true,
        )
    } else if sc.spec_matches_fn_combo(ShortcutAction::Toggle, keycode, flags) {
        (
            st,
            seq![TapEffectView::CancelPendingFn] + if is_down {
                seq![TapEffectView::Dispatch(ShortcutAction::Toggle, KeyState::Pressed)]
            } else {
                Seq::empty()
            },
            true,
        )
    } else {
        (st, seq![TapEffectView::CancelPendingFn], false)
    }
}

/// What the event tap does with one event: the new tap state, the effects,
/// and whether the event is swallowed.
pub open spec fn tap_spec(
    st: TapState,
    event_type: TapEventType,
    keycode: i64,
    flags: u64,
    autorepeat: bool,
    capture_active: bool,
    sc: RegisteredShortcuts,
) -> (TapState, Seq<TapEffectView>, bool) {
    match event_type {
        TapEventType::FlagsChanged => if keycode == MAC_FN_KEYCODE {
            fn_change_spec(st, fn_pressed_in(flags), capture_active, sc)
        } else {
            (st, Seq::empty(), false)
        },
        TapEventType::KeyDown => if keycode != MAC_FN_KEYCODE {
            key_spec(st, true, keycode, flags, autorepeat, capture_active, sc)
        } else {
            (st, Seq::empty(), false)
        },
        TapEventType::KeyUp => if keycode != MAC_FN_KEYCODE {
            key_spec(st, false, keycode, flags, autorepeat, capture_active, sc)
        } else {
            (st, Seq::empty(), false)
        },
        _ => (st, Seq::empty(), false),
    }
}

fn hold_log_text(state: KeyState) -> (s: String)
    ensures
        s@ == hold_log(state),
{
    let mut v: Vec<char> = Vec::new();
    append_str(&mut v, "mac_event_tap_shortcut_event action=hold state=");
    match state {
        KeyState::Pressed => append_str(&mut v, "Pressed"),
        KeyState::Released => append_str(&mut v, "Released"),
    }
    string_of(&v)
}

fn fn_change(
    state: &mut TapState,
    fn_pressed: bool,
    capture_active: bool,
    shortcuts: &RegisteredShortcuts,
) -> (d: TapDecision)
    ensures
        (*final(state), effect_views(d.effects@), d.swallow) == fn_change_spec(
            *old(state),
            fn_pressed,
            capture_active,
            *shortcuts,
        ),
{
    let mut effects: Vec<TapEffect> = Vec::new();
    if state.fn_key_down == fn_pressed {
        assert(effect_views(effects@) =~= Seq::empty());
        return TapDecision { effects, swallow: false };
    }
    state.fn_key_down = fn_pressed;
    if capture_active {
        if fn_pressed {
            state.saw_non_fn_key = false;
        }
        effects.push(TapEffect::EmitFnState(fn_pressed));
        if !fn_pressed && !state.saw_non_fn_key {
            effects.push(TapEffect::EmitCapture("Fn".to_string()));
        }
        assert(effect_views(effects@) =~= fn_change_spec(
            *old(state),
            fn_pressed,
            capture_active,
            *shortcuts,
        ).1);
        return TapDecision { effects, swallow: false };
    }
    if fn_pressed {
        if shortcuts.fn_combo_exists() {
            if shortcuts.has_fn_only_binding(ShortcutAction::Hold) {
                effects.push(TapEffect::SchedulePendingFn(ShortcutAction::Hold));
            } else if shortcuts.has_fn_only_binding(ShortcutAction::Toggle) {
                effects.push(TapEffect::SchedulePendingFn(ShortcutAction::Toggle));
            }
            assert(effect_views(effects@) =~= fn_change_spec(
                *old(state),
                fn_pressed,
                capture_active,
                *shortcuts,
            ).1);
            return TapDecision { effects, swallow: false };
        }
        let mut swallow = false;
        if shortcuts.has_fn_only_binding(ShortcutAction::Hold) {
            effects.push(TapEffect::Dispatch(ShortcutAction::Hold, KeyState::Pressed));
            swallow = true;
        } else if shortcuts.has_fn_only_binding(ShortcutAction::Toggle) {
            effects.push(TapEffect::Dispatch(ShortcutAction::Toggle, KeyState::Pressed));
            swallow = true;
        }
        assert(effect_views(effects@) =~= fn_change_spec(
            *old(state),
            fn_pressed,
            capture_active,
            *shortcuts,
        ).1);
        return TapDecision { effects, swallow };
    }
    effects.push(TapEffect::CancelPendingFn);
    let mut swallow = false;
    if shortcuts.has_mac_fn_binding(ShortcutAction::Hold) {
        effects.push(TapEffect::Dispatch(ShortcutAction::Hold, KeyState::Released));
        swallow = shortcuts.has_fn_only_binding(ShortcutAction::Hold);
    }
    assert(effect_views(effects@) =~= fn_change_spec(
        *old(state),
        fn_pressed,
        capture_active,
        *shortcuts,
    ).1);
    TapDecision { effects, swallow }
}

fn key_event(
    state: &mut TapState,
    is_down: bool,
    keycode: i64,
    flags: u64,
    autorepeat: bool,
    capture_active: bool,
    shortcuts: &RegisteredShortcuts,
) -> (d: TapDecision)
    ensures
        (*final(state), effect_views(d.effects@), d.swallow) == key_spec(
            *old(state),
            is_down,
            keycode,
            flags,
            autorepeat,
            capture_active,
            *shortcuts,
        ),
{
    let ghost spec = key_spec(*old(state), is_down, keycode, flags, autorepeat, capture_active, *shortcuts);
    let mut effects: Vec<TapEffect> = Vec::new();
    let fn_pressed = flags & NX_SECONDARYFNMASK != 0;
    let is_repeat = is_down && autorepeat;
    let es = if is_down {
        KeyState::Pressed
    } else {
        KeyState::Released
    };
    if capture_active && fn_pressed && is_down {
        if !is_repeat {
            state.saw_non_fn_key = true;
            if let Some(candidate) = build_mac_fn_capture_candidate(keycode, flags) {
                effects.push(TapEffect::EmitCapture(candidate));
            }
        }
        assert(effect_views(effects@) =~= spec.1);
        return TapDecision { effects, swallow: false };
    }
    if !capture_active && !fn_pressed {
        if shortcuts.action_matches_global_shortcut(ShortcutAction::Hold, keycode, flags) {
            if !is_repeat {
                effects.push(TapEffect::Log(hold_log_text(es)));
                effects.push(TapEffect::Dispatch(ShortcutAction::Hold, es));
            }
            assert(effect_views(effects@) =~= spec.1);
            return TapDecision { effects, swallow: true };
        } else if shortcuts.action_matches_global_shortcut(ShortcutAction::Toggle, keycode, flags) {
            if is_down && !is_repeat {
                effects.push(
                    TapEffect::Log(
                        "mac_event_tap_shortcut_event action=toggle state=Pressed".to_string(),
                    ),
                );
                effects.push(TapEffect::Dispatch(ShortcutAction::Toggle, KeyState::Pressed));
            }
            assert(effect_views(effects@) =~= spec.1);
            return TapDecision { effects, swallow: true };
        }
    }
    if is_repeat || !fn_pressed {
        assert(effect_views(effects@) =~= spec.1);
        return TapDecision { effects, swallow: false };
    }
    effects.push(TapEffect::CancelPendingFn);
    if shortcuts.action_matches_fn_combo(ShortcutAction::Hold, keycode, flags) {
        effects.push(TapEffect::Dispatch(ShortcutAction::Hold, es));
        assert(effect_views(effects@) =~= spec.1);
        return TapDecision { effects, swallow: true };
    } else if shortcuts.action_matches_fn_combo(ShortcutAction::Toggle, keycode, flags) {
        if is_down {
            effects.push(TapEffect::Dispatch(ShortcutAction::Toggle, KeyState::Pressed));
        }
        assert(effect_views(effects@) =~= spec.1);
        return TapDecision { effects, swallow: true };
    }
    assert(effect_views(effects@) =~= spec.1);
    TapDecision { effects, swallow: false }
}

/// Decides what the event tap does with one keyboard event. `autorepeat`
/// is the event's auto-repeat field; it only matters for key-down events.
pub fn decide_tap_event(
    state: &mut TapState,
    event_type: TapEventType,
    keycode: i64,
    flags: u64,
    autorepeat: bool,
    capture_active: bool,
    shortcuts: &RegisteredShortcuts,
) -> (d: TapDecision)
    ensures
        (*final(state), effect_views(d.effects@), d.swallow) == tap_spec(
            *old(state),
            event_type,
            keycode,
            flags,
            autorepeat,
            capture_active,
            *shortcuts,
        ),
{
    let fn_pressed = flags & NX_SECONDARYFNMASK != 0;
    let none = TapDecision { effects: Vec::new(), swallow: false };
    match event_type {
        TapEventType::FlagsChanged => {
            if keycode == MAC_FN_KEYCODE {
                fn_change(state, fn_pressed, capture_active, shortcuts)
            } else {
                assert(effect_views(none.effects@) =~= Seq::empty());
                none
            }
        },
        TapEventType::KeyDown | TapEventType::KeyUp => {
            if keycode != MAC_FN_KEYCODE {
                let is_down = event_type == TapEventType::KeyDown;
                key_event(state, is_down, keycode, flags, autorepeat, capture_active, shortcuts)
            } else {
                assert(effect_views(none.effects@) =~= Seq::empty());
                none
            }
        },
        _ => {
            assert(effect_views(none.effects@) =~= Seq::empty());
            none
        },
    }
}

/// A delayed Fn press fires when no other event came in the meantime, Fn is
/// still held, the action has an Fn-only binding, and some Fn combination is
/// registered (which is why the press was delayed).
pub open spec fn spec_pending_fires(
    sequence_unchanged: bool,
    fn_down: bool,
    sc: RegisteredShortcuts,
    action: ShortcutAction,
) -> bool {
    sequence_unchanged && fn_down && sc.spec_has_fn_only(action) && sc.spec_fn_combo_exists()
}

pub fn pending_fn_press_fires(
    sequence_unchanged: bool,
    fn_down: bool,
    shortcuts: &RegisteredShortcuts,
    action: ShortcutAction,
) -> (b: bool)
    ensures
        b == spec_pending_fires(sequence_unchanged, fn_down, *shortcuts, action),
{
    sequence_unchanged && fn_down && shortcuts.has_fn_only_binding(action)
        && shortcuts.fn_combo_exists()
}

// ---------------------------------------------------------------------------
// Shortcut events and the recording
// ---------------------------------------------------------------------------

/// Which recording mode a shortcut event toggles, given the mode of the
/// recording in progress (if any): a hold shortcut starts on press and stops
/// on release; a hands-free shortcut starts and stops on press; shortcuts of
/// the other mode are ignored while recording.
pub open spec fn spec_shortcut_outcome(
    active: Option<RecordingModeKind>,
    mode: RecordingModeKind,
    event: KeyState,
) -> Option<RecordingModeKind> {
    match active {
        Some(a) => if a != mode {
            None
        } else if a == RecordingModeKind::Hold && event == KeyState::Released {
            Some(RecordingModeKind::Hold)
        } else if a == RecordingModeKind::Toggle && event == KeyState::Pressed {
            Some(RecordingModeKind::Toggle)
        } else {
            None
        },
        None => if event == KeyState::Pressed {
            Some(mode)
        } else {
            None
        },
    }
}

pub fn shortcut_event_outcome(
    active: Option<RecordingModeKind>,
    mode: RecordingModeKind,
    event: KeyState,
) -> (r: Option<RecordingModeKind>)
    ensures
        r == spec_shortcut_outcome(active, mode, event),
{
    match active {
        Some(a) => {
            if a != mode {
                None
            } else if a == RecordingModeKind::Hold && event == KeyState::Released {
                Some(RecordingModeKind::Hold)
            } else if a == RecordingModeKind::Toggle && event == KeyState::Pressed {
                Some(RecordingModeKind::Toggle)
            } else {
                None
            }
        },
        None => {
            if event == KeyState::Pressed {
                Some(mode)
            } else {
                None
            }
        },
    }
}


/// The event that ends a recording in a given mode: releasing a hold
/// shortcut, pressing a hands-free shortcut again.
pub open spec fn stop_event(mode: RecordingModeKind) -> KeyState {
    match mode {
        RecordingModeKind::Hold => KeyState::Released,
        RecordingModeKind::Toggle => KeyState::Pressed,
    }
}

/// With no recording running, pressing a shortcut starts a recording in its
/// mode and releasing one does nothing; a running recording is ended only by
/// its own mode's stop event, and every shortcut of the other mode is ignored
/// until it ends.
pub proof fn lemma_shortcut_cycle(mode: RecordingModeKind, other: RecordingModeKind, event: KeyState)
    requires
        other != mode,
    ensures
        spec_shortcut_outcome(None, mode, KeyState::Pressed) == Some(mode),
        spec_shortcut_outcome(None, mode, KeyState::Released) is None,
        spec_shortcut_outcome(Some(mode), mode, stop_event(mode)) == Some(mode),
        event != stop_event(mode) ==> spec_shortcut_outcome(Some(mode), mode, event) is None,
        spec_shortcut_outcome(Some(mode), other, event) is None,
{
}


/// Outside hotkey capture, a key event that matches a registered global
/// shortcut (with Fn up) never reaches the focused application: the tap
/// swallows it, and the tap state is left as it was.
pub proof fn lemma_matching_shortcut_is_swallowed(
    st: TapState,
    is_down: bool,
    keycode: i64,
    flags: u64,
    autorepeat: bool,
    sc: RegisteredShortcuts,
    action: ShortcutAction,
)
    requires
        keycode != MAC_FN_KEYCODE,
        !fn_pressed_in(flags),
        sc.spec_matches_global(action, keycode, flags),
    ensures
        ({
            let event_type = if is_down {
                TapEventType::KeyDown
            } else {
                TapEventType::KeyUp
            };
            let (next, _, swallow) = tap_spec(st, event_type, keycode, flags, autorepeat, false, sc);
            swallow && next == st
        }),
{
}

/// The key state a key-down or key-up event stands for.
pub open spec fn event_key_state(is_down: bool) -> KeyState {
    if is_down {
        KeyState::Pressed
    } else {
        KeyState::Released
    }
}

pub open spec fn key_event_type(is_down: bool) -> TapEventType {
    if is_down {
        TapEventType::KeyDown
    } else {
        TapEventType::KeyUp
    }
}

/// Outside hotkey capture and with Fn up, a key event that matches a global
/// hold shortcut reaches the recorder as a hold event in the key's own
/// state: pressing starts the hold, releasing ends it. Only an auto-repeated
/// key-down is dropped. No other action is dispatched, the event is
/// swallowed, and the tap state is left as it was.
pub proof fn lemma_hold_shortcut_follows_the_key(
    st: TapState,
    is_down: bool,
    keycode: i64,
    flags: u64,
    autorepeat: bool,
    sc: RegisteredShortcuts,
)
    requires
        keycode != MAC_FN_KEYCODE,
        !fn_pressed_in(flags),
        sc.spec_matches_global(ShortcutAction::Hold, keycode, flags),
    ensures
        ({
            let (next, effects, swallow) = tap_spec(
                st,
                key_event_type(is_down),
                keycode,
                flags,
                autorepeat,
                false,
                sc,
            );
            &&& swallow
            &&& next == st
            &&& !(is_down && autorepeat) ==> effects.contains(
                TapEffectView::Dispatch(ShortcutAction::Hold, event_key_state(is_down)),
            )
            &&& is_down && autorepeat ==> effects.len() == 0
            &&& forall|i: int|
                0 <= i < effects.len() && (#[trigger] effects[i]) is Dispatch ==> effects[i]
                    == TapEffectView::Dispatch(ShortcutAction::Hold, event_key_state(is_down))
        }),
{
    let (next, effects, swallow) = tap_spec(
        st,
        key_event_type(is_down),
        keycode,
        flags,
        autorepeat,
        false,
        sc,
    );
    if !(is_down && autorepeat) {
        assert(effects[1] == TapEffectView::Dispatch(
            ShortcutAction::Hold,
            event_key_state(is_down),
        ));
    }
}

/// Outside hotkey capture and with Fn up, a key that matches a hands-free
/// shortcut (and no hold shortcut) starts or stops the recording when it goes
/// down, once: its release and its auto-repeats dispatch nothing. Either way
/// the event is swallowed.
pub proof fn lemma_toggle_shortcut_fires_on_press(
    st: TapState,
    is_down: bool,
    keycode: i64,
    flags: u64,
    autorepeat: bool,
    sc: RegisteredShortcuts,
)
    requires
        keycode != MAC_FN_KEYCODE,
        !fn_pressed_in(flags),
        sc.spec_matches_global(ShortcutAction::Toggle, keycode, flags),
        !sc.spec_matches_global(ShortcutAction::Hold, keycode, flags),
    ensures
        ({
            let (next, effects, swallow) = tap_spec(
                st,
                key_event_type(is_down),
                keycode,
                flags,
                autorepeat,
                false,
                sc,
            );
            &&& swallow
            &&& next == st
            &&& is_down && !autorepeat ==> effects.contains(
                TapEffectView::Dispatch(ShortcutAction::Toggle, KeyState::Pressed),
            )
            &&& !(is_down && !autorepeat) ==> effects.len() == 0
            &&& forall|i: int|
                0 <= i < effects.len() && (#[trigger] effects[i]) is Dispatch ==> effects[i]
                    == TapEffectView::Dispatch(ShortcutAction::Toggle, KeyState::Pressed)
        }),
{
    let (next, effects, swallow) = tap_spec(
        st,
        key_event_type(is_down),
        keycode,
        flags,
        autorepeat,
        false,
        sc,
    );
    if is_down && !autorepeat {
        assert(effects[1] == TapEffectView::Dispatch(ShortcutAction::Toggle, KeyState::Pressed));
    }
}

/// Outside hotkey capture, a key pressed or released with Fn held that
/// matches an Fn combination of the hold action dispatches the hold action in
/// the key's own state (an auto-repeated key-down excepted), after dropping
/// any delayed Fn press, and is swallowed.
pub proof fn lemma_fn_combo_hold_follows_the_key(
    st: TapState,
    is_down: bool,
    keycode: i64,
    flags: u64,
    autorepeat: bool,
    sc: RegisteredShortcuts,
)
    requires
        keycode != MAC_FN_KEYCODE,
        fn_pressed_in(flags),
        !(is_down && autorepeat),
        sc.spec_matches_fn_combo(ShortcutAction::Hold, keycode, flags),
    ensures
        ({
            let (next, effects, swallow) = tap_spec(
                st,
                key_event_type(is_down),
                keycode,
                flags,
                autorepeat,
                false,
                sc,
            );
            &&& swallow
            &&& next == st
            &&& effects == seq![
                TapEffectView::CancelPendingFn,
                TapEffectView::Dispatch(ShortcutAction::Hold, event_key_state(is_down)),
            ]
        }),
{
}

} // verus!
