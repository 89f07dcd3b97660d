//! Parsed shortcuts and the bindings registered for the hold and hands-free
//! actions, with the policy that decides which shortcuts are accepted.
use vstd::prelude::*;

use crate::hotkeys::{
    canonical_part, fn_token, is_fn_part, kept_parts, normalize_hotkey,
    normalize_requested_hotkey, plus, Platform, ShortcutAction,
};
use crate::text::{
    append_str, chars_of, eq_ignore_ascii_case, join_chars, join_with, split_chars, split_on,
    str_eq, string_of, trim, trim_chars, trim_str,
};

verus! {

// ---------------------------------------------------------------------------
// Shortcuts
// ---------------------------------------------------------------------------

/// Modifier bits of a parsed shortcut, as `keyboard_types::Modifiers` sets them.
pub const MOD_ALT: u32 = 0x1;

pub const MOD_CONTROL: u32 = 0x8;

pub const MOD_SHIFT: u32 = 0x200;

pub const MOD_SUPER: u32 = 0x2000;

/// A keyboard shortcut: its modifier bits and the W3C code name of its key
/// (`"Space"`, `"KeyA"`, `"F8"`, ...).
#[derive(Clone, Debug)]
pub struct Shortcut {
    pub mods: u32,
    pub key: String,
}

impl View for Shortcut {
    type V = (u32, Seq<char>);

    open spec fn view(&self) -> (u32, Seq<char>) {
        (self.mods, self.key@)
    }
}

impl Shortcut {
    pub fn copy(&self) -> (r: Shortcut)
        ensures
            r@ == self@,
    {
        Shortcut { mods: self.mods, key: self.key.clone() }
    }

    /// Parses a shortcut written as `Modifier+...+Key` (the shortcut crate's
    /// own grammar).
    pub fn parse(text: &str) -> (r: Option<Shortcut>)
        ensures
            r matches Some(s) ==> hotkey_parse(text@) == Some(s@),
            r is None ==> hotkey_parse(text@) is None,
    {
        parse_hotkey(text)
    }
}

/// What the shortcut crate's `FromStr` makes of a text: the modifier bits and
/// the key's code name, or nothing when the text is not a shortcut. The
/// crate reads the `CmdOrCtrl` family of modifier names as Command when it is
/// built for macOS and as Control elsewhere; this names the parse of the
/// platform the library is built for.
pub uninterp spec fn hotkey_parse(text: Seq<char>) -> Option<(u32, Seq<char>)>;

/// `global_hotkey::hotkey::HotKey::from_str`, taken apart into the modifier
/// bits (`Modifiers::bits`) and the `Display` name of the key code. The
/// contract only names the result: the grammar it accepts (modifier names
/// and key names, ignoring case, separated by `+`) is the crate's and is not
/// restated here.
#[verifier::external_body]
fn parse_hotkey(text: &str) -> (r: Option<Shortcut>)
    ensures
        r matches Some(s) ==> hotkey_parse(text@) == Some(s@),
        r is None ==> hotkey_parse(text@) is None,
{
    match text.parse::<global_hotkey::hotkey::HotKey>() {
        Ok(h) => Some(Shortcut { mods: h.mods.bits(), key: h.key.to_string() }),
        Err(_) => None,
    }
}

pub open spec fn has_mod(mods: u32, bit: u32) -> bool {
    mods & bit != 0
}

/// How many of Shift, Control, Alt and Super are held.
pub open spec fn modifier_count(mods: u32) -> nat {
    (if has_mod(mods, MOD_SHIFT) {
        1nat
    } else {
        0nat
    }) + (if has_mod(mods, MOD_CONTROL) {
        1nat
    } else {
        0nat
    }) + (if has_mod(mods, MOD_ALT) {
        1nat
    } else {
        0nat
    }) + (if has_mod(mods, MOD_SUPER) {
        1nat
    } else {
        0nat
    })
}

pub fn shortcut_modifier_count(shortcut: &Shortcut) -> (n: usize)
    ensures
        n == modifier_count(shortcut.mods),
{
    let mut n: usize = 0;
    if shortcut.mods & MOD_SHIFT != 0 {
        n += 1;
    }
    if shortcut.mods & MOD_CONTROL != 0 {
        n += 1;
    }
    if shortcut.mods & MOD_ALT != 0 {
        n += 1;
    }
    if shortcut.mods & MOD_SUPER != 0 {
        n += 1;
    }
    n
}

/// The key is one of the function keys F1 to F24.
pub open spec fn is_function_key_name(k: Seq<char>) -> bool {
    ||| k == "F1"@
    ||| k == "F2"@
    ||| k == "F3"@
    ||| k == "F4"@
    ||| k == "F5"@
    ||| k == "F6"@
    ||| k == "F7"@
    ||| k == "F8"@
    ||| k == "F9"@
    ||| k == "F10"@
    ||| k == "F11"@
    ||| k == "F12"@
    ||| k == "F13"@
    ||| k == "F14"@
    ||| k == "F15"@
    ||| k == "F16"@
    ||| k == "F17"@
    ||| k == "F18"@
    ||| k == "F19"@
    ||| k == "F20"@
    ||| k == "F21"@
    ||| k == "F22"@
    ||| k == "F23"@
    ||| k == "F24"@
}

pub fn is_function_key(key: &str) -> (b: bool)
    ensures
        b == is_function_key_name(key@),
{
    str_eq(key, "F1") || str_eq(key, "F2") || str_eq(key, "F3") || str_eq(key, "F4") || str_eq(
        key,
        "F5",
    ) || str_eq(key, "F6") || str_eq(key, "F7") || str_eq(key, "F8") || str_eq(key, "F9")
        || str_eq(key, "F10") || str_eq(key, "F11") || str_eq(key, "F12") || str_eq(key, "F13")
        || str_eq(key, "F14") || str_eq(key, "F15") || str_eq(key, "F16") || str_eq(key, "F17")
        || str_eq(key, "F18") || str_eq(key, "F19") || str_eq(key, "F20") || str_eq(key, "F21")
        || str_eq(key, "F22") || str_eq(key, "F23") || str_eq(key, "F24")
}

// ---------------------------------------------------------------------------
// Errors
// ---------------------------------------------------------------------------

/// Why a requested set of shortcuts cannot be bound. The action names the
/// shortcut the message is about.
#[derive(Clone, Copy, PartialEq, Eq, Structural, Debug)]
pub enum ShortcutBindingError {
    EmptyShortcut(ShortcutAction),
    DuplicateBindings,
    InvalidFormat(ShortcutAction),
    PolicyViolation(ShortcutAction),
    AccessibilityRequired(ShortcutAction),
    Unavailable(ShortcutAction),
    ShortcutStateLock,
}

pub open spec fn binding_error_message(e: ShortcutBindingError) -> Seq<char> {
    match e {
        ShortcutBindingError::EmptyShortcut(a) => a.label() + " cannot be empty."@,
        ShortcutBindingError::DuplicateBindings =>
            "Each shortcut must be unique across hold and hands-free actions."@,
        ShortcutBindingError::InvalidFormat(a) => a.label()
            + " is invalid. Use one supported key with one or two modifiers. Modifier-only shortcuts are not supported here yet. Single F keys also work, and macOS supports Fn by itself."@,
        ShortcutBindingError::PolicyViolation(a) => a.label()
            + " must use one supported key with one or two modifiers. Modifier-only shortcuts are not supported here yet. Single F keys also work, and macOS supports Fn by itself."@,
        ShortcutBindingError::AccessibilityRequired(a) => a.label()
            + " needs macOS Accessibility access. Open Settings > Access and enable this app, then save again."@,
        ShortcutBindingError::Unavailable(a) => a.label()
            + " isn't available right now. Choose another shortcut."@,
        ShortcutBindingError::ShortcutStateLock => "Failed to lock shortcut state."@,
    }
}

impl ShortcutBindingError {
    /// The text shown to the user.
    pub fn message(&self) -> (s: String)
        ensures
            s@ == binding_error_message(*self),
    {
        let mut v: Vec<char> = Vec::new();
        match self {
            ShortcutBindingError::EmptyShortcut(a) => {
                append_str(&mut v, a.shortcut_label());
                append_str(&mut v, " cannot be empty.");
            },
            ShortcutBindingError::DuplicateBindings => {
                append_str(&mut v, "Each shortcut must be unique across hold and hands-free actions.");
            },
            ShortcutBindingError::InvalidFormat(a) => {
                append_str(&mut v, a.shortcut_label());
                append_str(
                    &mut v,
                    " is invalid. Use one supported key with one or two modifiers. Modifier-only shortcuts are not supported here yet. Single F keys also work, and macOS supports Fn by itself.",
                );
            },
            ShortcutBindingError::PolicyViolation(a) => {
                append_str(&mut v, a.shortcut_label());
                append_str(
                    &mut v,
                    " must use one supported key with one or two modifiers. Modifier-only shortcuts are not supported here yet. Single F keys also work, and macOS supports Fn by itself.",
                );
            },
            ShortcutBindingError::AccessibilityRequired(a) => {
                append_str(&mut v, a.shortcut_label());
                append_str(
                    &mut v,
                    " needs macOS Accessibility access. Open Settings > Access and enable this app, then save again.",
                );
            },
            ShortcutBindingError::Unavailable(a) => {
                append_str(&mut v, a.shortcut_label());
                append_str(&mut v, " isn't available right now. Choose another shortcut.");
            },
            ShortcutBindingError::ShortcutStateLock => {
                append_str(&mut v, "Failed to lock shortcut state.");
            },
        }
        assert(v@ =~= binding_error_message(*self));
        string_of(&v)
    }
}

// ---------------------------------------------------------------------------
// Policy
// ---------------------------------------------------------------------------

/// A shortcut is accepted when it is a single function key, or one key with
/// one or two modifiers.
pub open spec fn policy_allows(mods: u32, key: Seq<char>) -> bool {
    ||| (is_function_key_name(key) && modifier_count(mods) == 0)
    ||| (1 <= modifier_count(mods) && modifier_count(mods) <= 2)
}

pub fn validate_shortcut_policy(shortcut: &Shortcut, action: ShortcutAction) -> (r: Result<
    (),
    ShortcutBindingError,
>)
    ensures
        r is Ok <==> policy_allows(shortcut.mods, shortcut.key@),
        r is Err ==> r == Err::<(), _>(ShortcutBindingError::PolicyViolation(action)),
{
    let modifier_count = shortcut_modifier_count(shortcut);
    if is_function_key(shortcut.key.as_str()) && modifier_count == 0 {
        return Ok(());
    }
    if 1 <= modifier_count && modifier_count <= 2 {
        return Ok(());
    }
    Err(ShortcutBindingError::PolicyViolation(action))
}

/// With Fn held, one to three modifiers counting Fn itself are accepted.
pub open spec fn mac_fn_policy_allows(mods: u32) -> bool {
    modifier_count(mods) + 1 <= 3
}

pub fn validate_mac_fn_shortcut_policy(shortcut: &Shortcut, action: ShortcutAction) -> (r: Result<
    (),
    ShortcutBindingError,
>)
    ensures
        r is Ok <==> mac_fn_policy_allows(shortcut.mods),
        r is Err ==> r == Err::<(), _>(ShortcutBindingError::PolicyViolation(action)),
{
    let modifier_count = shortcut_modifier_count(shortcut) + 1;
    if 1 <= modifier_count && modifier_count <= 3 {
        return Ok(());
    }
    Err(ShortcutBindingError::PolicyViolation(action))
}

// ---------------------------------------------------------------------------
// Bindings
// ---------------------------------------------------------------------------

/// An Fn-key binding on macOS: Fn alone, or Fn together with a base shortcut.
#[derive(Clone, Debug)]
pub struct MacFnShortcut {
    pub base: Option<Shortcut>,
}

impl MacFnShortcut {
    pub open spec fn base_view(self) -> Option<(u32, Seq<char>)> {
        match self.base {
            Some(s) => Some(s@),
            None => None,
        }
    }

    pub fn fn_only(&self) -> (b: bool)
        ensures
            b == (self.base is None),
    {
        self.base.is_none()
    }
}

/// A registered binding: a global shortcut, or (macOS) an Fn binding.
#[derive(Clone, Debug)]
pub enum RegisteredShortcutBinding {
    Global(Shortcut),
    MacFn(MacFnShortcut),
}

/// Spec form of a binding: whether it is an Fn binding, and its shortcut
/// (the base shortcut for an Fn binding).
pub type BindingView = (bool, Option<(u32, Seq<char>)>);

impl View for RegisteredShortcutBinding {
    type V = BindingView;

    open spec fn view(&self) -> BindingView {
        match self {
            RegisteredShortcutBinding::Global(s) => (false, Some(s@)),
            RegisteredShortcutBinding::MacFn(m) => (true, m.base_view()),
        }
    }
}

fn shortcut_eq(a: &Shortcut, b: &Shortcut) -> (r: bool)
    ensures
        r == (a@ == b@),
{
    a.mods == b.mods && str_eq(a.key.as_str(), b.key.as_str())
}

impl RegisteredShortcutBinding {
    pub fn copy(&self) -> (r: RegisteredShortcutBinding)
        ensures
            r@ == self@,
    {
        match self {
            RegisteredShortcutBinding::Global(s) => RegisteredShortcutBinding::Global(s.copy()),
            RegisteredShortcutBinding::MacFn(m) => {
                let base = match &m.base {
                    Some(s) => Some(s.copy()),
                    None => None,
                };
                RegisteredShortcutBinding::MacFn(MacFnShortcut { base })
            },
        }
    }

    /// Equality of bindings (same kind, same shortcut).
    pub fn same_as(&self, other: &RegisteredShortcutBinding) -> (r: bool)
        ensures
            r == (self@ == other@),
    {
        match (self, other) {
            (RegisteredShortcutBinding::Global(a), RegisteredShortcutBinding::Global(b)) => {
                shortcut_eq(a, b)
            },
            (RegisteredShortcutBinding::MacFn(a), RegisteredShortcutBinding::MacFn(b)) => {
                match (&a.base, &b.base) {
                    (Some(x), Some(y)) => shortcut_eq(x, y),
                    (None, None) => true,
                    _ => false,
                }
            },
            _ => false,
        }
    }

    /// The global shortcut, if this is one.
    pub fn global(&self) -> (r: Option<Shortcut>)
        ensures
            r matches Some(s) ==> !self@.0 && self@.1 == Some(s@),
            r is None <==> self@.0,
    {
        match self {
            RegisteredShortcutBinding::Global(s) => Some(s.copy()),
            RegisteredShortcutBinding::MacFn(_) => None,
        }
    }

    /// The Fn binding, when this is one.
    pub fn mac_fn(&self) -> (r: Option<MacFnShortcut>)
        ensures
            r matches Some(m) ==> self@.0 && self@.1 == m.base_view(),
            r is None <==> !self@.0,
    {
        match self {
            RegisteredShortcutBinding::Global(_) => None,
            RegisteredShortcutBinding::MacFn(m) => {
                let base = match &m.base {
                    Some(s) => Some(s.copy()),
                    None => None,
                };
                Some(MacFnShortcut { base })
            },
        }
    }

    pub fn is_mac_fn(&self) -> (b: bool)
        ensures
            b == self@.0,
    {
        match self {
            RegisteredShortcutBinding::Global(_) => false,
            RegisteredShortcutBinding::MacFn(_) => true,
        }
    }

    /// An Fn binding without a base shortcut (Fn pressed on its own).
    pub fn is_fn_only(&self) -> (b: bool)
        ensures
            b == (self@.0 && self@.1 is None),
    {
        match self {
            RegisteredShortcutBinding::Global(_) => false,
            RegisteredShortcutBinding::MacFn(m) => m.fn_only(),
        }
    }
}

// ---------------------------------------------------------------------------
// Parsing requested hotkeys into bindings
// ---------------------------------------------------------------------------

/// The trimmed non-empty `+`-separated tokens of a hotkey.
pub open spec fn hotkey_tokens(s: Seq<char>) -> Seq<Seq<char>> {
    kept_parts(split_on(s, '+'), false)
}

/// How many tokens are the Fn key.
pub open spec fn fn_count(tokens: Seq<Seq<char>>) -> nat
    decreases tokens.len(),
{
    if tokens.len() == 0 {
        0
    } else {
        fn_count(tokens.drop_last()) + if is_fn_part(tokens.last()) {
            1nat
        } else {
            0nat
        }
    }
}

/// The tokens that are not the Fn key, in order.
pub open spec fn non_fn_tokens(tokens: Seq<Seq<char>>) -> Seq<Seq<char>>
    decreases tokens.len(),
{
    if tokens.len() == 0 {
        Seq::empty()
    } else if is_fn_part(tokens.last()) {
        non_fn_tokens(tokens.drop_last())
    } else {
        non_fn_tokens(tokens.drop_last()).push(tokens.last())
    }
}

/// Spec of `parse_mac_fn_shortcut`: exactly one Fn token, and the other
/// tokens (if any) form a shortcut that, with Fn, has at most three modifiers.
pub open spec fn mac_fn_parse(s: Seq<char>, action: ShortcutAction) -> Result<
    Option<(u32, Seq<char>)>,
    ShortcutBindingError,
> {
    let tokens = hotkey_tokens(s);
    let rest = non_fn_tokens(tokens);
    if fn_count(tokens) != 1 {
        Err(ShortcutBindingError::InvalidFormat(action))
    } else if rest.len() == 0 {
        Ok(None)
    } else {
        match hotkey_parse(join_with(rest, plus())) {
            None => Err(ShortcutBindingError::InvalidFormat(action)),
            Some(p) => if mac_fn_policy_allows(p.0) {
                Ok(Some(p))
            } else {
                Err(ShortcutBindingError::PolicyViolation(action))
            },
        }
    }
}

pub fn parse_mac_fn_shortcut(requested_hotkey: &str, action: ShortcutAction) -> (r: Result<
    MacFnShortcut,
    ShortcutBindingError,
>)
    ensures
        match r {
            Ok(m) => mac_fn_parse(requested_hotkey@, action) == Ok::<_, ShortcutBindingError>(
                m.base_view(),
            ),
            Err(e) => mac_fn_parse(requested_hotkey@, action) == Err::<
                Option<(u32, Seq<char>)>,
                _,
            >(e),
        },
{
    let chars = chars_of(requested_hotkey);
    let parts = split_chars(&chars, '+');
    let ghost views = parts@.map_values(|p: Vec<char>| p@);
    let mut fns: usize = 0;
    let mut remaining: Vec<Vec<char>> = Vec::new();
    let ghost mut tokens: Seq<Seq<char>> = Seq::empty();
    for i in 0..parts.len()
        invariant
            views == parts@.map_values(|p: Vec<char>| p@),
            tokens == kept_parts(views.take(i as int), false),
            fns == fn_count(tokens),
            fns <= i,
            remaining@.map_values(|p: Vec<char>| p@) == non_fn_tokens(tokens),
    {
        assert(views.take(i + 1).drop_last() =~= views.take(i as int));
        let t = trim_chars(&parts[i]);
        assert(t@ == canonical_part(views[i as int], false));
        if t.len() > 0 {
            proof {
                tokens = tokens.push(t@);
                assert(tokens.drop_last() =~= kept_parts(views.take(i as int), false));
            }
            if eq_ignore_ascii_case(&t, &['F', 'n']) {
                assert(['F', 'n']@ =~= fn_token());
                fns += 1;
            } else {
                assert(['F', 'n']@ =~= fn_token());
                let ghost before = remaining@.map_values(|p: Vec<char>| p@);
                remaining.push(t);
                assert(remaining@.map_values(|p: Vec<char>| p@) =~= before.push(tokens.last()));
            }
        }
    }
    assert(views.take(parts.len() as int) =~= views);
    if fns != 1 {
        return Err(ShortcutBindingError::InvalidFormat(action));
    }
    if remaining.len() == 0 {
        return Ok(MacFnShortcut { base: None });
    }
    let joined = join_chars(&remaining, "+");
    proof {
        reveal_strlit("+");
        assert("+"@ =~= plus());
    }
    let joined_text = string_of(&joined);
    let parsed = match parse_hotkey(joined_text.as_str()) {
        Some(p) => p,
        None => {
            return Err(ShortcutBindingError::InvalidFormat(action));
        },
    };
    match validate_mac_fn_shortcut_policy(&parsed, action) {
        Ok(()) => Ok(MacFnShortcut { base: Some(parsed) }),
        Err(e) => Err(e),
    }
}

/// Some `+`-separated part of the hotkey is the Fn key.
pub open spec fn mentions_fn(s: Seq<char>) -> bool {
    exists|i: int|
        0 <= i < split_on(s, '+').len() && is_fn_part(trim(#[trigger] split_on(s, '+')[i]))
}

fn mentions_fn_exec(requested_hotkey: &str) -> (b: bool)
    ensures
        b == mentions_fn(requested_hotkey@),
{
    let chars = chars_of(requested_hotkey);
    let parts = split_chars(&chars, '+');
    let ghost views = parts@.map_values(|p: Vec<char>| p@);
    for i in 0..parts.len()
        invariant
            views == parts@.map_values(|p: Vec<char>| p@),
            views == split_on(requested_hotkey@, '+'),
            forall|j: int| 0 <= j < i ==> !is_fn_part(trim(#[trigger] views[j])),
    {
        let t = trim_chars(&parts[i]);
        if eq_ignore_ascii_case(&t, &['F', 'n']) {
            assert(['F', 'n']@ =~= fn_token());
            assert(is_fn_part(trim(views[i as int])));
            return true;
        }
        assert(['F', 'n']@ =~= fn_token());
    }
    false
}

/// Spec of `parse_shortcut_binding_value`.
pub open spec fn binding_parse(s: Seq<char>, action: ShortcutAction, mac: bool) -> Result<
    BindingView,
    ShortcutBindingError,
> {
    if mac && mentions_fn(s) {
        match mac_fn_parse(s, action) {
            Ok(base) => Ok((true, base)),
            Err(e) => Err(e),
        }
    } else {
        match hotkey_parse(s) {
            None => Err(ShortcutBindingError::InvalidFormat(action)),
            Some(p) => if policy_allows(p.0, p.1) {
                Ok((false, Some(p)))
            } else {
                Err(ShortcutBindingError::PolicyViolation(action))
            },
        }
    }
}

pub fn parse_shortcut_binding_value(
    requested_hotkey: &str,
    action: ShortcutAction,
    platform: Platform,
) -> (r: Result<RegisteredShortcutBinding, ShortcutBindingError>)
    ensures
        match r {
            Ok(b) => binding_parse(requested_hotkey@, action, platform.is_mac()) == Ok::<
                _,
                ShortcutBindingError,
            >(b@),
            Err(e) => binding_parse(requested_hotkey@, action, platform.is_mac()) == Err::<
                BindingView,
                _,
            >(e),
        },
{
    if platform.mac() && mentions_fn_exec(requested_hotkey) {
        return match parse_mac_fn_shortcut(requested_hotkey, action) {
            Ok(m) => Ok(RegisteredShortcutBinding::MacFn(m)),
            Err(e) => Err(e),
        };
    }
    let shortcut = match parse_hotkey(requested_hotkey) {
        Some(s) => s,
        None => {
            return Err(ShortcutBindingError::InvalidFormat(action));
        },
    };
    match validate_shortcut_policy(&shortcut, action) {
        Ok(()) => Ok(RegisteredShortcutBinding::Global(shortcut)),
        Err(e) => Err(e),
    }
}

/// A requested hotkey together with the binding it parsed into.
#[derive(Clone, Debug)]
pub struct ShortcutBindingRegistration {
    pub requested_hotkey: String,
    pub binding: RegisteredShortcutBinding,
}

/// Spec of `parse_shortcut_binding`: the trimmed request is parsed; the
/// registration records its normalized spelling.
pub open spec fn registration_parse(s: Seq<char>, action: ShortcutAction, mac: bool) -> Result<
    (Seq<char>, BindingView),
    ShortcutBindingError,
> {
    match binding_parse(trim(s), action, mac) {
        Ok(b) => Ok((normalize_hotkey(trim(s), mac), b)),
        Err(e) => Err(e),
    }
}

pub open spec fn registration_view(r: ShortcutBindingRegistration) -> (Seq<char>, BindingView) {
    (r.requested_hotkey@, r.binding@)
}

pub fn parse_shortcut_binding(
    requested_hotkey: &str,
    action: ShortcutAction,
    platform: Platform,
) -> (r: Result<ShortcutBindingRegistration, ShortcutBindingError>)
    ensures
        match r {
            Ok(reg) => registration_parse(requested_hotkey@, action, platform.is_mac()) == Ok::<
                _,
                ShortcutBindingError,
            >(registration_view(reg)),
            Err(e) => registration_parse(requested_hotkey@, action, platform.is_mac()) == Err::<
                (Seq<char>, BindingView),
                _,
            >(e),
        },
{
    let trimmed_chars = trim_str(requested_hotkey);
    let trimmed = string_of(&trimmed_chars);
    match parse_shortcut_binding_value(trimmed.as_str(), action, platform) {
        Ok(binding) => Ok(
            ShortcutBindingRegistration {
                requested_hotkey: normalize_requested_hotkey(trimmed.as_str(), platform),
                binding,
            },
        ),
        Err(e) => Err(e),
    }
}

/// An Fn binding counts Fn itself as one modifier and accepts one to three
/// in all: Fn with none, one or two of Shift, Control, Alt and Super is
/// accepted, Fn with three or four is refused. So every global shortcut that
/// the policy accepts with modifiers may also be held together with Fn.
pub proof fn lemma_fn_binding_modifier_limit(mods: u32, key: Seq<char>)
    ensures
        mac_fn_policy_allows(mods) <==> modifier_count(mods) <= 2,
        policy_allows(mods, key) && modifier_count(mods) >= 1 ==> mac_fn_policy_allows(mods),
{
}

/// A hotkey with exactly one Fn token and a base that the hotkey parser
/// reads becomes an Fn binding on that base when the base has at most two
/// modifiers, and is refused as a policy violation when it has more.
pub proof fn lemma_mac_fn_parse_by_modifier_count(
    s: Seq<char>,
    action: ShortcutAction,
    base: (u32, Seq<char>),
)
    requires
        fn_count(hotkey_tokens(s)) == 1,
        non_fn_tokens(hotkey_tokens(s)).len() > 0,
        hotkey_parse(join_with(non_fn_tokens(hotkey_tokens(s)), plus())) == Some(base),
    ensures
        modifier_count(base.0) <= 2 ==> mac_fn_parse(s, action) == Ok::<
            Option<(u32, Seq<char>)>,
            ShortcutBindingError,
        >(Some(base)),
        modifier_count(base.0) > 2 ==> mac_fn_parse(s, action) == Err::<
            Option<(u32, Seq<char>)>,
            ShortcutBindingError,
        >(ShortcutBindingError::PolicyViolation(action)),
{
}

/// The shortcut policy by modifier count: one or two modifiers are accepted
/// on any key, three or four never; with no modifier only a function key
/// F1 to F24 is accepted.
pub proof fn lemma_shortcut_policy_by_modifier_count(mods: u32, key: Seq<char>)
    ensures
        1 <= modifier_count(mods) <= 2 ==> policy_allows(mods, key),
        modifier_count(mods) >= 3 ==> !policy_allows(mods, key),
        modifier_count(mods) == 0 ==> (policy_allows(mods, key) <==> is_function_key_name(key)),
{
}

} // verus!
