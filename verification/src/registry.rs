//! The set of registered shortcuts, the plan that turns requested hotkey lists
//! into bindings, and the step-by-step registration of that plan (with the
//! rollback taken when a binding cannot be registered).
use vstd::prelude::*;

use crate::bindings::{
    parse_shortcut_binding, registration_parse, registration_view, BindingView, MacFnShortcut,
    RegisteredShortcutBinding, Shortcut, ShortcutBindingError, ShortcutBindingRegistration,
};
use crate::hotkeys::{string_views, Platform, ShortcutAction};
use crate::maclayout::{mac_keycode, mac_keycode_for_code, mac_standard_modifiers_from_flags, mods_from_flags};

verus! {

/// The bindings currently registered for each action.
#[derive(Clone, Debug)]
pub struct RegisteredShortcuts {
    pub hold: Vec<RegisteredShortcutBinding>,
    pub toggle: Vec<RegisteredShortcutBinding>,
}

pub open spec fn binding_views(v: Seq<RegisteredShortcutBinding>) -> Seq<BindingView> {
    v.map_values(|b: RegisteredShortcutBinding| b@)
}

impl RegisteredShortcuts {
    pub fn new() -> (r: RegisteredShortcuts)
        ensures
            r.hold@.len() == 0,
            r.toggle@.len() == 0,
    {
        RegisteredShortcuts { hold: Vec::new(), toggle: Vec::new() }
    }

    pub open spec fn for_action(self, action: ShortcutAction) -> Seq<BindingView> {
        match action {
            ShortcutAction::Hold => binding_views(self.hold@),
            ShortcutAction::Toggle => binding_views(self.toggle@),
        }
    }

    pub fn bindings_for_action(&self, action: ShortcutAction) -> (r: &Vec<
        RegisteredShortcutBinding,
    >)
        ensures
            binding_views(r@) == self.for_action(action),
    {
        match action {
            ShortcutAction::Hold => &self.hold,
            ShortcutAction::Toggle => &self.toggle,
        }
    }

    /// Some binding of either action is Fn together with another key.
    pub open spec fn spec_fn_combo_exists(self) -> bool {
        ||| exists|i: int|
            0 <= i < self.hold@.len() && (#[trigger] self.hold@[i])@.0 && self.hold@[i]@.1 is Some
        ||| exists|i: int|
            0 <= i < self.toggle@.len() && (#[trigger] self.toggle@[i])@.0
                && self.toggle@[i]@.1 is Some
    }

    pub fn fn_combo_exists(&self) -> (b: bool)
        ensures
            b == self.spec_fn_combo_exists(),
    {
        for i in 0..self.hold.len()
            invariant
                forall|j: int|
                    0 <= j < i ==> !((#[trigger] self.hold@[j])@.0 && self.hold@[j]@.1 is Some),
        {
            if self.hold[i].is_mac_fn() && !self.hold[i].is_fn_only() {
                return true;
            }
        }
        for i in 0..self.toggle.len()
            invariant
                forall|j: int|
                    0 <= j < self.hold@.len() ==> !((#[trigger] self.hold@[j])@.0
                        && self.hold@[j]@.1 is Some),
                forall|j: int|
                    0 <= j < i ==> !((#[trigger] self.toggle@[j])@.0 && self.toggle@[j]@.1 is Some),
        {
            if self.toggle[i].is_mac_fn() && !self.toggle[i].is_fn_only() {
                return true;
            }
        }
        false
    }

    /// The action has an Fn binding without a base shortcut.
    pub open spec fn spec_has_fn_only(self, action: ShortcutAction) -> bool {
        exists|i: int|
            0 <= i < self.for_action(action).len() && (#[trigger] self.for_action(action)[i]).0
                && self.for_action(action)[i].1 is None
    }

    pub fn has_fn_only_binding(&self, action: ShortcutAction) -> (b: bool)
        ensures
            b == self.spec_has_fn_only(action),
    {
        let list = self.bindings_for_action(action);
        for i in 0..list.len()
            invariant
                binding_views(list@) == self.for_action(action),
                forall|j: int|
                    0 <= j < i ==> !((#[trigger] binding_views(list@)[j]).0 && binding_views(
                        list@,
                    )[j].1 is None),
        {
            if list[i].is_fn_only() {
                assert(binding_views(list@)[i as int] == list@[i as int]@);
                return true;
            }
        }
        false
    }

    /// The action has an Fn binding (with or without a base shortcut).
    pub open spec fn spec_has_mac_fn(self, action: ShortcutAction) -> bool {
        exists|i: int|
            0 <= i < self.for_action(action).len() && (#[trigger] self.for_action(action)[i]).0
    }

    pub fn has_mac_fn_binding(&self, action: ShortcutAction) -> (b: bool)
        ensures
            b == self.spec_has_mac_fn(action),
    {
        let list = self.bindings_for_action(action);
        for i in 0..list.len()
            invariant
                binding_views(list@) == self.for_action(action),
                forall|j: int| 0 <= j < i ==> !(#[trigger] binding_views(list@)[j]).0,
        {
            if list[i].is_mac_fn() {
                assert(binding_views(list@)[i as int] == list@[i as int]@);
                return true;
            }
        }
        false
    }

    /// A global binding of the action is the key `keycode` with exactly the
    /// modifiers in `flags`.
    pub open spec fn spec_matches_global(self, action: ShortcutAction, keycode: i64, flags: u64) -> bool {
        exists|i: int|
            0 <= i < self.for_action(action).len() && !(#[trigger] self.for_action(action)[i]).0
                && global_key_matches(self.for_action(action)[i].1, keycode, flags)
    }

    pub fn action_matches_global_shortcut(
        &self,
        action: ShortcutAction,
        keycode: i64,
        flags: u64,
    ) -> (b: bool)
        ensures
            b == self.spec_matches_global(action, keycode, flags),
    {
        let modifiers = mac_standard_modifiers_from_flags(flags);
        let list = self.bindings_for_action(action);
        for i in 0..list.len()
            invariant
                binding_views(list@) == self.for_action(action),
                modifiers == mods_from_flags(flags),
                forall|j: int|
                    0 <= j < i ==> !(!(#[trigger] binding_views(list@)[j]).0 && global_key_matches(
                        binding_views(list@)[j].1,
                        keycode,
                        flags,
                    )),
        {
            assert(binding_views(list@)[i as int] == list@[i as int]@);
            match &list[i] {
                RegisteredShortcutBinding::Global(s) => {
                    if s.mods == modifiers {
                        if let Some(expected) = mac_keycode_for_code(s.key.as_str()) {
                            if expected == keycode {
                                return true;
                            }
                        }
                    }
                },
                RegisteredShortcutBinding::MacFn(_) => {},
            }
        }
        false
    }

    /// An Fn binding of the action has a base shortcut that is the key
    /// `keycode` with exactly the modifiers in `flags`.
    pub open spec fn spec_matches_fn_combo(self, action: ShortcutAction, keycode: i64, flags: u64) -> bool {
        exists|i: int|
            0 <= i < self.for_action(action).len() && (#[trigger] self.for_action(action)[i]).0
                && global_key_matches(self.for_action(action)[i].1, keycode, flags)
    }

    pub fn action_matches_fn_combo(&self, action: ShortcutAction, keycode: i64, flags: u64) -> (b:
        bool)
        ensures
            b == self.spec_matches_fn_combo(action, keycode, flags),
    {
        let list = self.bindings_for_action(action);
        for i in 0..list.len()
            invariant
                binding_views(list@) == self.for_action(action),
                forall|j: int|
                    0 <= j < i ==> !((#[trigger] binding_views(list@)[j]).0 && global_key_matches(
                        binding_views(list@)[j].1,
                        keycode,
                        flags,
                    )),
        {
            assert(binding_views(list@)[i as int] == list@[i as int]@);
            match &list[i] {
                RegisteredShortcutBinding::MacFn(m) => {
                    if mac_fn_combo_matches(m, keycode, flags) {
                        return true;
                    }
                },
                RegisteredShortcutBinding::Global(_) => {},
            }
        }
        false
    }
}

/// An Fn binding matches a key event when it has a base shortcut that is
/// the key `keycode` with exactly the modifiers in `flags`.
pub fn mac_fn_combo_matches(binding: &MacFnShortcut, keycode: i64, flags: u64) -> (b: bool)
    ensures
        b == global_key_matches(binding.base_view(), keycode, flags),
{
    match &binding.base {
        None => false,
        Some(base) => {
            let matches_key = match mac_keycode_for_code(base.key.as_str()) {
                Some(expected) => expected == keycode,
                None => false,
            };
            matches_key && mac_standard_modifiers_from_flags(flags) == base.mods
        },
    }
}

/// The shortcut is the key `keycode` with exactly the modifiers in `flags`.
pub open spec fn global_key_matches(s: Option<(u32, Seq<char>)>, keycode: i64, flags: u64) -> bool {
    match s {
        Some(p) => p.0 == mods_from_flags(flags) && mac_keycode(p.1) == Some(keycode),
        None => false,
    }
}

/// One of the bindings is the global shortcut `shortcut`.
pub open spec fn spec_shortcut_matches(bindings: Seq<BindingView>, shortcut: (u32, Seq<char>)) -> bool {
    exists|i: int| 0 <= i < bindings.len() && #[trigger] bindings[i] == (false, Some(shortcut))
}

pub fn registered_shortcut_matches(bindings: &Vec<RegisteredShortcutBinding>, shortcut: &Shortcut) -> (b: bool)
    ensures
        b == spec_shortcut_matches(binding_views(bindings@), shortcut@),
{
    let target = RegisteredShortcutBinding::Global(shortcut.copy());
    for i in 0..bindings.len()
        invariant
            target@ == (false, Some(shortcut@)),
            forall|j: int|
                0 <= j < i ==> #[trigger] binding_views(bindings@)[j] != (false, Some(shortcut@)),
    {
        assert(binding_views(bindings@)[i as int] == bindings@[i as int]@);
        if bindings[i].same_as(&target) {
            return true;
        }
    }
    false
}

// ---------------------------------------------------------------------------
// The registration plan
// ---------------------------------------------------------------------------

/// Spec of parsing a whole hotkey list: the registrations in order, or the
/// error of the first hotkey that does not parse.
pub open spec fn parse_hotkey_list(hs: Seq<Seq<char>>, action: ShortcutAction, mac: bool) -> Result<
    Seq<(Seq<char>, BindingView)>,
    ShortcutBindingError,
>
    decreases hs.len(),
{
    if hs.len() == 0 {
        Ok(Seq::empty())
    } else {
        match parse_hotkey_list(hs.drop_last(), action, mac) {
            Err(e) => Err(e),
            Ok(prev) => match registration_parse(hs.last(), action, mac) {
                Err(e) => Err(e),
                Ok(r) => Ok(prev.push(r)),
            },
        }
    }
}

/// Spec of `parse_shortcut_bindings`: an empty list is refused.
pub open spec fn parse_bindings_spec(hs: Seq<Seq<char>>, action: ShortcutAction, mac: bool) -> Result<
    Seq<(Seq<char>, BindingView)>,
    ShortcutBindingError,
> {
    if hs.len() == 0 {
        Err(ShortcutBindingError::EmptyShortcut(action))
    } else {
        parse_hotkey_list(hs, action, mac)
    }
}

pub open spec fn registration_views(v: Seq<ShortcutBindingRegistration>) -> Seq<(Seq<char>, BindingView)> {
    v.map_values(|r: ShortcutBindingRegistration| registration_view(r))
}

pub fn parse_shortcut_bindings(hotkeys: &[String], action: ShortcutAction, platform: Platform) -> (r:
    Result<Vec<ShortcutBindingRegistration>, ShortcutBindingError>)
    ensures
        match r {
            Ok(v) => parse_bindings_spec(string_views(hotkeys@), action, platform.is_mac()) == Ok::<
                _,
                ShortcutBindingError,
            >(registration_views(v@)),
            Err(e) => parse_bindings_spec(string_views(hotkeys@), action, platform.is_mac())
                == Err::<Seq<(Seq<char>, BindingView)>, _>(e),
        },
{
    if hotkeys.len() == 0 {
        return Err(ShortcutBindingError::EmptyShortcut(action));
    }
    let ghost input = string_views(hotkeys@);
    let mut out: Vec<ShortcutBindingRegistration> = Vec::new();
    assert(input.take(0) =~= Seq::<Seq<char>>::empty());
    assert(registration_views(out@) =~= Seq::<(Seq<char>, BindingView)>::empty());
    for i in 0..hotkeys.len()
        invariant
            input == string_views(hotkeys@),
            parse_hotkey_list(input.take(i as int), action, platform.is_mac()) == Ok::<
                _,
                ShortcutBindingError,
            >(registration_views(out@)),
    {
        assert(input.take(i + 1).drop_last() =~= input.take(i as int));
        assert(input.take(i + 1).last() == hotkeys@[i as int]@);
        match parse_shortcut_binding(hotkeys[i].as_str(), action, platform) {
            Ok(reg) => {
                let ghost before = registration_views(out@);
                out.push(reg);
                assert(registration_views(out@) =~= before.push(registration_view(reg)));
            },
            Err(e) => {
                proof {
                    lemma_parse_list_error_persists(input, (i + 1) as int, action, platform.is_mac());
                }
                assert(input.take(hotkeys.len() as int) =~= input);
                return Err(e);
            },
        }
    }
    assert(input.take(hotkeys.len() as int) =~= input);
    Ok(out)
}

/// A successful parse has one registration per hotkey.
pub proof fn lemma_parse_list_len(hs: Seq<Seq<char>>, action: ShortcutAction, mac: bool)
    ensures
        parse_hotkey_list(hs, action, mac) matches Ok(v) ==> v.len() == hs.len(),
    decreases hs.len(),
{
    if hs.len() > 0 {
        lemma_parse_list_len(hs.drop_last(), action, mac);
    }
}

/// Once a prefix of the list fails to parse, the whole list fails with the
/// same error.
pub proof fn lemma_parse_list_error_persists(hs: Seq<Seq<char>>, k: int, action: ShortcutAction, mac: bool)
    requires
        0 <= k <= hs.len(),
        parse_hotkey_list(hs.take(k), action, mac) is Err,
    ensures
        parse_hotkey_list(hs, action, mac) == parse_hotkey_list(hs.take(k), action, mac),
    decreases hs.len() - k,
{
    if k < hs.len() {
        assert(hs.take(k + 1).drop_last() =~= hs.take(k));
        lemma_parse_list_error_persists(hs, k + 1, action, mac);
    } else {
        assert(hs.take(k) =~= hs);
    }
}

/// The bindings of a plan: hold first, then hands-free.
pub open spec fn plan_items(hold: Seq<(Seq<char>, BindingView)>, toggle: Seq<(Seq<char>, BindingView)>) -> Seq<BindingView> {
    hold.map_values(|r: (Seq<char>, BindingView)| r.1) + toggle.map_values(
        |r: (Seq<char>, BindingView)| r.1,
    )
}

pub open spec fn all_distinct(s: Seq<BindingView>) -> bool {
    forall|i: int, j: int| 0 <= i < j < s.len() ==> s[i] != s[j]
}

/// Spec of planning a registration: both lists parse, and no binding
/// appears twice across them.
pub open spec fn plan_spec(hold: Seq<Seq<char>>, toggle: Seq<Seq<char>>, mac: bool) -> Result<
    (Seq<(Seq<char>, BindingView)>, Seq<(Seq<char>, BindingView)>),
    ShortcutBindingError,
> {
    match parse_bindings_spec(hold, ShortcutAction::Hold, mac) {
        Err(e) => Err(e),
        Ok(h) => match parse_bindings_spec(toggle, ShortcutAction::Toggle, mac) {
            Err(e) => Err(e),
            Ok(t) => if all_distinct(plan_items(h, t)) {
                Ok((h, t))
            } else {
                Err(ShortcutBindingError::DuplicateBindings)
            },
        },
    }
}

/// Parsed hold and hands-free registrations, ready to be registered.
pub struct ShortcutPlan {
    pub hold: Vec<ShortcutBindingRegistration>,
    pub toggle: Vec<ShortcutBindingRegistration>,
}

impl ShortcutPlan {
    pub open spec fn items(self) -> Seq<BindingView> {
        plan_items(registration_views(self.hold@), registration_views(self.toggle@))
    }

    pub open spec fn total(self) -> nat {
        (self.hold@.len() + self.toggle@.len()) as nat
    }

    /// The binding registered at position `k` (hold bindings first).
    pub fn item(&self, k: usize) -> (r: (ShortcutAction, &RegisteredShortcutBinding))
        requires
            k < self.total(),
        ensures
            r.1@ == self.items()[k as int],
            r.0 == (if k < self.hold@.len() {
                ShortcutAction::Hold
            } else {
                ShortcutAction::Toggle
            }),
    {
        if k < self.hold.len() {
            (ShortcutAction::Hold, &self.hold[k].binding)
        } else {
            (ShortcutAction::Toggle, &self.toggle[k - self.hold.len()].binding)
        }
    }
}

pub fn plan_shortcut_registration(
    hold_hotkeys: &[String],
    toggle_hotkeys: &[String],
    platform: Platform,
) -> (r: Result<ShortcutPlan, ShortcutBindingError>)
    requires
        hold_hotkeys@.len() + toggle_hotkeys@.len() <= usize::MAX,
    ensures
        match r {
            Ok(p) => plan_spec(string_views(hold_hotkeys@), string_views(toggle_hotkeys@), platform.is_mac())
                == Ok::<_, ShortcutBindingError>((registration_views(p.hold@), registration_views(p.toggle@))),
            Err(e) => plan_spec(string_views(hold_hotkeys@), string_views(toggle_hotkeys@), platform.is_mac())
                == Err::<(Seq<(Seq<char>, BindingView)>, Seq<(Seq<char>, BindingView)>), _>(e),
        },
{
    let hold = match parse_shortcut_bindings(hold_hotkeys, ShortcutAction::Hold, platform) {
        Ok(h) => h,
        Err(e) => {
            return Err(e);
        },
    };
    let toggle = match parse_shortcut_bindings(toggle_hotkeys, ShortcutAction::Toggle, platform) {
        Ok(t) => t,
        Err(e) => {
            return Err(e);
        },
    };
    let plan = ShortcutPlan { hold, toggle };
    proof {
        lemma_parse_list_len(string_views(hold_hotkeys@), ShortcutAction::Hold, platform.is_mac());
        lemma_parse_list_len(string_views(toggle_hotkeys@), ShortcutAction::Toggle, platform.is_mac());
    }
    let total = plan.hold.len() + plan.toggle.len();
    let ghost items = plan.items();
    assert(items.len() == total);
    for j in 0..total
        invariant
            parse_bindings_spec(string_views(hold_hotkeys@), ShortcutAction::Hold, platform.is_mac())
                == Ok::<_, ShortcutBindingError>(registration_views(plan.hold@)),
            parse_bindings_spec(string_views(toggle_hotkeys@), ShortcutAction::Toggle, platform.is_mac())
                == Ok::<_, ShortcutBindingError>(registration_views(plan.toggle@)),
            total == plan.total(),
            items == plan.items(),
            forall|a: int, b: int| 0 <= a < b < j ==> items[a] != items[b],
    {
        let (_, current) = plan.item(j);
        for i in 0..j
            invariant
                parse_bindings_spec(string_views(hold_hotkeys@), ShortcutAction::Hold, platform.is_mac())
                    == Ok::<_, ShortcutBindingError>(registration_views(plan.hold@)),
                parse_bindings_spec(string_views(toggle_hotkeys@), ShortcutAction::Toggle, platform.is_mac())
                    == Ok::<_, ShortcutBindingError>(registration_views(plan.toggle@)),
                j < total == plan.total(),
                items == plan.items(),
                current@ == items[j as int],
                forall|a: int| 0 <= a < i ==> items[a] != items[j as int],
        {
            let (_, earlier) = plan.item(i);
            if earlier.same_as(current) {
                assert(items[i as int] == items[j as int]);
                assert(!all_distinct(items));
                return Err(ShortcutBindingError::DuplicateBindings);
            }
        }
    }
    Ok(plan)
}

// ---------------------------------------------------------------------------
// Carrying out a plan
// ---------------------------------------------------------------------------

/// The next thing to do while registering a plan.
pub enum RegistrationStep {
    /// Make sure the native event tap is running (macOS), for the binding of
    /// the given action.
    EnsureEventTap(ShortcutAction),
    /// Register the global shortcut for the given action.
    RegisterGlobal(ShortcutAction, Shortcut),
    /// Give up: unregister these shortcuts, restore the previous bindings and
    /// report the error.
    Abort(Vec<Shortcut>, ShortcutBindingError),
    /// Everything is registered; these are the new current bindings.
    Commit(RegisteredShortcuts),
}

/// The global shortcuts among the first `k` items.
pub open spec fn globals_before(items: Seq<BindingView>, k: int) -> Seq<(u32, Seq<char>)>
    decreases k,
{
    if k <= 0 {
        Seq::empty()
    } else {
        let prev = globals_before(items, k - 1);
        if !items[k - 1].0 && items[k - 1].1 is Some {
            prev.push(items[k - 1].1->0)
        } else {
            prev
        }
    }
}

pub open spec fn shortcut_views(v: Seq<Shortcut>) -> Seq<(u32, Seq<char>)> {
    v.map_values(|s: Shortcut| s@)
}

/// What registering a binding of `action` fails with on `platform`.
pub open spec fn registration_failure(mac: bool, action: ShortcutAction) -> ShortcutBindingError {
    if mac {
        ShortcutBindingError::AccessibilityRequired(action)
    } else {
        ShortcutBindingError::Unavailable(action)
    }
}

/// The bindings of a list of registrations, in order.
fn binding_list(regs: &Vec<ShortcutBindingRegistration>) -> (r: Vec<RegisteredShortcutBinding>)
    ensures
        binding_views(r@) == registration_views(regs@).map_values(|x: (Seq<char>, BindingView)| x.1),
{
    let ghost target = registration_views(regs@).map_values(|x: (Seq<char>, BindingView)| x.1);
    let mut out: Vec<RegisteredShortcutBinding> = Vec::new();
    for i in 0..regs.len()
        invariant
            target == registration_views(regs@).map_values(|x: (Seq<char>, BindingView)| x.1),
            binding_views(out@) == target.take(i as int),
    {
        let b = regs[i].binding.copy();
        assert(target[i as int] == regs@[i as int].binding@);
        let ghost before = binding_views(out@);
        out.push(b);
        assert(binding_views(out@) =~= before.push(target[i as int]));
        assert(target.take(i + 1) =~= target.take(i as int).push(target[i as int]));
    }
    assert(target.take(regs.len() as int) =~= target);
    out
}

impl ShortcutPlan {
    fn globals_registered(&self, platform: Platform, registered: usize) -> (r: Vec<Shortcut>)
        requires
            registered <= self.total(),
        ensures
            shortcut_views(r@) == if platform.is_mac() {
                Seq::empty()
            } else {
                globals_before(self.items(), registered as int)
            },
    {
        let mut out: Vec<Shortcut> = Vec::new();
        if platform.mac() {
            assert(shortcut_views(out@) =~= Seq::empty());
            return out;
        }
        for k in 0..registered
            invariant
                registered <= self.total(),
                shortcut_views(out@) == globals_before(self.items(), k as int),
        {
            let (_, b) = self.item(k);
            match b {
                RegisteredShortcutBinding::Global(s) => {
                    let ghost before = shortcut_views(out@);
                    out.push(s.copy());
                    assert(shortcut_views(out@) =~= before.push(s@));
                },
                RegisteredShortcutBinding::MacFn(_) => {},
            }
        }
        out
    }

    /// Decides the next step after `registered` bindings were registered;
    /// `last_failed` tells whether registering the next one just failed.
    pub fn next_registration_step(&self, platform: Platform, registered: usize, last_failed: bool) -> (r: RegistrationStep)
        requires
            registered <= self.total(),
            last_failed ==> registered < self.total(),
        ensures
            last_failed ==> (r matches RegistrationStep::Abort(u, e) && e == registration_failure(
                platform.is_mac(),
                if registered < self.hold@.len() {
                    ShortcutAction::Hold
                } else {
                    ShortcutAction::Toggle
                },
            ) && shortcut_views(u@) == (if platform.is_mac() {
                Seq::empty()
            } else {
                globals_before(self.items(), registered as int)
            })),
            !last_failed && registered < self.total() ==> {
                let action = if registered < self.hold@.len() {
                    ShortcutAction::Hold
                } else {
                    ShortcutAction::Toggle
                };
                let item = self.items()[registered as int];
                if platform.is_mac() {
                    r == RegistrationStep::EnsureEventTap(action)
                } else if item.0 {
                    (r matches RegistrationStep::Abort(u, e) && e
                        == ShortcutBindingError::InvalidFormat(action) && shortcut_views(u@)
                        == globals_before(self.items(), registered as int))
                } else {
                    (r matches RegistrationStep::RegisterGlobal(a, s) && a == action && Some(s@)
                        == item.1)
                }
            },
            !last_failed && registered == self.total() ==> (r matches RegistrationStep::Commit(c)
                && binding_views(c.hold@) == registration_views(self.hold@).map_values(
                |x: (Seq<char>, BindingView)| x.1,
            ) && binding_views(c.toggle@) == registration_views(self.toggle@).map_values(
                |x: (Seq<char>, BindingView)| x.1,
            )),
    {
        if last_failed {
            let (action, _) = self.item(registered);
            let error = if platform.mac() {
                ShortcutBindingError::AccessibilityRequired(action)
            } else {
                ShortcutBindingError::Unavailable(action)
            };
            return RegistrationStep::Abort(self.globals_registered(platform, registered), error);
        }
        if registered < self.hold.len() || registered - self.hold.len() < self.toggle.len() {
            let (action, binding) = self.item(registered);
            if platform.mac() {
                return RegistrationStep::EnsureEventTap(action);
            }
            return match binding {
                RegisteredShortcutBinding::Global(s) => RegistrationStep::RegisterGlobal(action, s.copy()),
                RegisteredShortcutBinding::MacFn(_) => RegistrationStep::Abort(
                    self.globals_registered(platform, registered),
                    ShortcutBindingError::InvalidFormat(action),
                ),
            };
        }
        let hold = binding_list(&self.hold);
        let toggle = binding_list(&self.toggle);
        RegistrationStep::Commit(RegisteredShortcuts { hold, toggle })
    }
}


// ---------------------------------------------------------------------------
// Clearing and restoring bindings
// ---------------------------------------------------------------------------

/// The global shortcuts in a list of bindings, in order.
pub open spec fn globals_of(bs: Seq<BindingView>) -> Seq<(u32, Seq<char>)>
    decreases bs.len(),
{
    if bs.len() == 0 {
        Seq::empty()
    } else {
        let prev = globals_of(bs.drop_last());
        if !bs.last().0 && bs.last().1 is Some {
            prev.push(bs.last().1->0)
        } else {
            prev
        }
    }
}

fn global_shortcuts(list: &Vec<RegisteredShortcutBinding>) -> (r: Vec<Shortcut>)
    ensures
        shortcut_views(r@) == globals_of(binding_views(list@)),
{
    let mut out: Vec<Shortcut> = Vec::new();
    for i in 0..list.len()
        invariant
            shortcut_views(out@) == globals_of(binding_views(list@).take(i as int)),
    {
        assert(binding_views(list@).take(i + 1).drop_last() =~= binding_views(list@).take(i as int));
        assert(binding_views(list@).take(i + 1).last() == list@[i as int]@);
        match list[i].global() {
            Some(sc) => {
                let ghost before = shortcut_views(out@);
                out.push(sc);
                assert(shortcut_views(out@) =~= before.push(list@[i as int]@.1->0));
            },
            None => {},
        }
    }
    assert(binding_views(list@).take(list.len() as int) =~= binding_views(list@));
    out
}

impl RegisteredShortcuts {
    /// Forgets every registered binding and returns the global shortcuts the
    /// caller must unregister from the system: hold ones first, then
    /// hands-free ones; none on macOS, where the event tap serves them all.
    pub fn unregister_registered_shortcuts(&mut self, platform: Platform) -> (r: Vec<Shortcut>)
        ensures
            final(self).hold@.len() == 0,
            final(self).toggle@.len() == 0,
            shortcut_views(r@) == if platform.is_mac() {
                Seq::empty()
            } else {
                globals_of(binding_views(old(self).hold@)) + globals_of(
                    binding_views(old(self).toggle@),
                )
            },
    {
        let mut out: Vec<Shortcut> = Vec::new();
        if !platform.mac() {
            out = global_shortcuts(&self.hold);
            let mut rest = global_shortcuts(&self.toggle);
            let ghost a = shortcut_views(out@);
            let ghost b = shortcut_views(rest@);
            out.append(&mut rest);
            assert(shortcut_views(out@) =~= a + b);
        } else {
            assert(shortcut_views(out@) =~= Seq::empty());
        }
        self.hold = Vec::new();
        self.toggle = Vec::new();
        out
    }
}

/// The global shortcuts of some registrations that the caller must
/// unregister; none on macOS.
pub fn unregister_registered_bindings(
    bindings: &Vec<ShortcutBindingRegistration>,
    platform: Platform,
) -> (r: Vec<Shortcut>)
    ensures
        shortcut_views(r@) == if platform.is_mac() {
            Seq::empty()
        } else {
            globals_of(registration_views(bindings@).map_values(|x: (Seq<char>, BindingView)| x.1))
        },
{
    if platform.mac() {
        let out: Vec<Shortcut> = Vec::new();
        assert(shortcut_views(out@) =~= Seq::empty());
        return out;
    }
    let list = binding_list(bindings);
    global_shortcuts(&list)
}

/// The bindings kept when restoring a list: every Fn binding, and each
/// global one whose registration succeeded again (`reregistered` has one
/// entry per binding; entries of Fn bindings are ignored).
pub open spec fn restored_list(bs: Seq<BindingView>, reregistered: Seq<bool>) -> Seq<BindingView>
    decreases bs.len(),
{
    if bs.len() == 0 {
        Seq::empty()
    } else {
        let n = bs.len() - 1;
        let prev = restored_list(bs.drop_last(), reregistered.take(n));
        if bs.last().0 || reregistered[n] {
            prev.push(bs.last())
        } else {
            prev
        }
    }
}

fn restore_list(
    previous: Vec<RegisteredShortcutBinding>,
    reregistered: &[bool],
) -> (r: Vec<RegisteredShortcutBinding>)
    requires
        reregistered@.len() == previous@.len(),
    ensures
        binding_views(r@) == restored_list(binding_views(previous@), reregistered@),
{
    let mut out: Vec<RegisteredShortcutBinding> = Vec::new();
    for i in 0..previous.len()
        invariant
            reregistered@.len() == previous@.len(),
            binding_views(out@) == restored_list(
                binding_views(previous@).take(i as int),
                reregistered@.take(i as int),
            ),
    {
        assert(binding_views(previous@).take(i + 1).drop_last() =~= binding_views(previous@).take(
            i as int,
        ));
        assert(reregistered@.take(i + 1).take(i as int) =~= reregistered@.take(i as int));
        assert(binding_views(previous@).take(i + 1).last() == previous@[i as int]@);
        if previous[i].is_mac_fn() || reregistered[i] {
            let ghost before = binding_views(out@);
            out.push(previous[i].copy());
            assert(binding_views(out@) =~= before.push(previous@[i as int]@));
        }
    }
    assert(binding_views(previous@).take(previous.len() as int) =~= binding_views(previous@));
    assert(reregistered@.take(previous.len() as int) =~= reregistered@);
    out
}

/// The bindings in force after a failed registration put the previous ones
/// back. On macOS the previous bindings stand as they were. Elsewhere each
/// previous global shortcut was registered again, with the outcomes given
/// per binding, and only those that succeeded (with every Fn binding) stay.
pub fn restore_registered_shortcuts(
    previous: RegisteredShortcuts,
    platform: Platform,
    hold_reregistered: &[bool],
    toggle_reregistered: &[bool],
) -> (r: RegisteredShortcuts)
    requires
        hold_reregistered@.len() == previous.hold@.len(),
        toggle_reregistered@.len() == previous.toggle@.len(),
    ensures
        platform.is_mac() ==> binding_views(r.hold@) == binding_views(previous.hold@)
            && binding_views(r.toggle@) == binding_views(previous.toggle@),
        !platform.is_mac() ==> binding_views(r.hold@) == restored_list(
            binding_views(previous.hold@),
            hold_reregistered@,
        ) && binding_views(r.toggle@) == restored_list(
            binding_views(previous.toggle@),
            toggle_reregistered@,
        ),
{
    if platform.mac() {
        return previous;
    }
    let RegisteredShortcuts { hold, toggle } = previous;
    let hold = restore_list(hold, hold_reregistered);
    let toggle = restore_list(toggle, toggle_reregistered);
    RegisteredShortcuts { hold, toggle }
}


/// A registration plan never binds the same shortcut twice, across both
/// actions.
pub proof fn lemma_plan_bindings_distinct(hold: Seq<Seq<char>>, toggle: Seq<Seq<char>>, mac: bool)
    ensures
        plan_spec(hold, toggle, mac) matches Ok((h, t)) ==> all_distinct(plan_items(h, t)),
{
}

} // verus!
