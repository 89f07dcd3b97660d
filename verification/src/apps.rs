//! The application that receives the dictated text: recognizing it by name,
//! deciding how to insert text into it, and building the AppleScript and the
//! accessibility edit used to do so.
use vstd::prelude::*;

use crate::hotkeys::Platform;
use crate::text::{
    append_chars, append_str, chars_eq, chars_of, contains_seq, contains_str, copy_range, decimal,
    is_ascii_alnum, is_ascii_alphanumeric, join_chars, join_with, lower_seq, push_decimal,
    push_signed_decimal, signed_decimal, split_chars, split_on, string_of, to_ascii_lowercase,
    trim, trim_str,
};

verus! {

// ---------------------------------------------------------------------------
// Application names
// ---------------------------------------------------------------------------

pub open spec fn keep_alnum(s: Seq<char>) -> Seq<char>
    decreases s.len(),
{
    if s.len() == 0 {
        Seq::empty()
    } else if is_ascii_alnum(s.last()) {
        keep_alnum(s.drop_last()).push(s.last())
    } else {
        keep_alnum(s.drop_last())
    }
}

/// An application name reduced for comparison: its ASCII letters and digits,
/// lower-cased.
pub open spec fn app_name_key(s: Seq<char>) -> Seq<char> {
    lower_seq(keep_alnum(s))
}

pub fn normalize_app_name_for_compare(app_name: &str) -> (r: String)
    ensures
        r@ == app_name_key(app_name@),
{
    let s = chars_of(app_name);
    let mut kept: Vec<char> = Vec::new();
    for i in 0..s.len()
        invariant
            kept@ == keep_alnum(s@.take(i as int)),
    {
        assert(s@.take(i + 1).drop_last() =~= s@.take(i as int));
        if is_ascii_alphanumeric(s[i]) {
            kept.push(s[i]);
        }
    }
    assert(s@.take(s.len() as int) =~= s@);
    let lower = to_ascii_lowercase(&kept);
    string_of(&lower)
}

/// Two application names match when their comparison keys are equal.
pub open spec fn spec_app_names_match(left: Seq<char>, right: Seq<char>) -> bool {
    app_name_key(left) == app_name_key(right)
}

pub fn app_names_match(left: &str, right: &str) -> (b: bool)
    ensures
        b == spec_app_names_match(left@, right@),
{
    let l = normalize_app_name_for_compare(left);
    let r = normalize_app_name_for_compare(right);
    l == r
}

/// Applications whose lower-cased name contains one of these are treated as
/// terminals (text is typed, not pasted, and the formatter may be skipped).
pub open spec fn spec_is_terminal_like(app_name: Seq<char>) -> bool {
    let lower = lower_seq(app_name);
    ||| contains_seq(lower, "terminal"@)
    ||| contains_seq(lower, "iterm"@)
    ||| contains_seq(lower, "warp"@)
    ||| contains_seq(lower, "wezterm"@)
    ||| contains_seq(lower, "alacritty"@)
    ||| contains_seq(lower, "kitty"@)
    ||| contains_seq(lower, "tmux"@)
    ||| contains_seq(lower, "cmux"@)
    ||| contains_seq(lower, "zellij"@)
    ||| contains_seq(lower, "screen"@)
    ||| contains_seq(lower, "nvim"@)
    ||| contains_seq(lower, "vim"@)
    ||| contains_seq(lower, "helix"@)
    ||| contains_seq(lower, "hx"@)
}

pub fn is_terminal_like_app(app_name: &str) -> (b: bool)
    ensures
        b == spec_is_terminal_like(app_name@),
{
    let s = chars_of(app_name);
    let lower = to_ascii_lowercase(&s);
    contains_str(&lower, "terminal") || contains_str(&lower, "iterm") || contains_str(
        &lower,
        "warp",
    ) || contains_str(&lower, "wezterm") || contains_str(&lower, "alacritty") || contains_str(
        &lower,
        "kitty",
    ) || contains_str(&lower, "tmux") || contains_str(&lower, "cmux") || contains_str(
        &lower,
        "zellij",
    ) || contains_str(&lower, "screen") || contains_str(&lower, "nvim") || contains_str(
        &lower,
        "vim",
    ) || contains_str(&lower, "helix") || contains_str(&lower, "hx")
}

/// The application name printed by an `osascript` query: the trimmed output,
/// when it is not empty.
pub open spec fn app_name_from_output(output: Seq<char>) -> Option<Seq<char>> {
    if trim(output).len() == 0 {
        None
    } else {
        Some(trim(output))
    }
}

pub fn app_name_from_script_output(output: &str) -> (r: Option<String>)
    ensures
        match r {
            Some(s) => app_name_from_output(output@) == Some(s@),
            None => app_name_from_output(output@) is None,
        },
{
    let t = trim_str(output);
    if t.len() == 0 {
        None
    } else {
        Some(string_of(&t))
    }
}

/// The application captured at record start as the insertion target: the
/// frontmost application, unless it is this app itself.
pub open spec fn spec_insertion_target(frontmost: Option<Seq<char>>, own_name: Seq<char>) -> Option<Seq<char>> {
    match frontmost {
        Some(f) => if spec_app_names_match(f, own_name) {
            None
        } else {
            Some(f)
        },
        None => None,
    }
}

pub fn insertion_target_from_frontmost(frontmost: Option<String>, own_name: &str) -> (r: Option<String>)
    ensures
        match r {
            Some(s) => spec_insertion_target(
                match frontmost {
                    Some(f) => Some(f@),
                    None => None,
                },
                own_name@,
            ) == Some(s@),
            None => spec_insertion_target(
                match frontmost {
                    Some(f) => Some(f@),
                    None => None,
                },
                own_name@,
            ) is None,
        },
{
    match frontmost {
        Some(f) => {
            if app_names_match(f.as_str(), own_name) {
                None
            } else {
                Some(f)
            }
        },
        None => None,
    }
}

// ---------------------------------------------------------------------------
// AppleScript
// ---------------------------------------------------------------------------

pub open spec fn escape_char(c: char) -> Seq<char> {
    if c == '\\' {
        seq!['\\', '\\']
    } else if c == '"' {
        seq!['\\', '"']
    } else {
        seq![c]
    }
}

/// A string escaped for an AppleScript string literal: each backslash and
/// each double quote is preceded by a backslash.
pub open spec fn applescript_escaped(s: Seq<char>) -> Seq<char>
    decreases s.len(),
{
    if s.len() == 0 {
        Seq::empty()
    } else {
        applescript_escaped(s.drop_last()) + escape_char(s.last())
    }
}

fn applescript_escape_chars(s: &[char]) -> (r: Vec<char>)
    ensures
        r@ == applescript_escaped(s@),
{
    let mut r: Vec<char> = Vec::new();
    for i in 0..s.len()
        invariant
            r@ == applescript_escaped(s@.take(i as int)),
    {
        assert(s@.take(i + 1).drop_last() =~= s@.take(i as int));
        let c = s[i];
        let ghost before = r@;
        if c == '\\' {
            r.push('\\');
            r.push('\\');
        } else if c == '"' {
            r.push('\\');
            r.push('"');
        } else {
            r.push(c);
        }
        assert(r@ =~= before + escape_char(c));
    }
    assert(s@.take(s.len() as int) =~= s@);
    r
}

pub fn applescript_escape(input: &str) -> (r: String)
    ensures
        r@ == applescript_escaped(input@),
{
    let s = chars_of(input);
    let e = applescript_escape_chars(&s);
    string_of(&e)
}

/// Characters typed per `keystroke` command.
pub const TERMINAL_TYPE_CHUNK_SIZE: usize = 80;

/// `s` cut into consecutive pieces of `n` characters (the last may be
/// shorter).
pub open spec fn chunks(s: Seq<char>, n: nat) -> Seq<Seq<char>>
    decreases s.len(),
{
    if s.len() == 0 || n == 0 {
        Seq::empty()
    } else if s.len() <= n {
        seq![s]
    } else {
        seq![s.take(n as int)] + chunks(s.skip(n as int), n)
    }
}

pub open spec fn keystroke_command(chunk: Seq<char>) -> Seq<char> {
    "keystroke \""@ + applescript_escaped(chunk) + "\""@
}

pub open spec fn line_commands(line: Seq<char>) -> Seq<Seq<char>> {
    chunks(line, TERMINAL_TYPE_CHUNK_SIZE as nat).map_values(|c: Seq<char>| keystroke_command(c))
}

/// The commands that type the lines, pressing Return between lines.
pub open spec fn typing_commands(lines: Seq<Seq<char>>) -> Seq<Seq<char>>
    decreases lines.len(),
{
    if lines.len() == 0 {
        Seq::empty()
    } else {
        typing_commands(lines.drop_last()) + (if lines.len() >= 2 {
            seq!["key code 36"@]
        } else {
            Seq::empty()
        }) + line_commands(lines.last())
    }
}

/// The AppleScript that types `text` into the frontmost application through
/// System Events, one line of script per command.
pub open spec fn typing_script(text: Seq<char>) -> Seq<char> {
    join_with(
        seq!["tell application \"System Events\""@] + typing_commands(split_on(text, '\n'))
            + seq!["end tell"@],
        "\n"@,
    )
}

pub open spec fn chars_views(v: Seq<Vec<char>>) -> Seq<Seq<char>> {
    v.map_values(|w: Vec<char>| w@)
}

fn keystroke_line(chunk: &[char]) -> (r: Vec<char>)
    ensures
        r@ == keystroke_command(chunk@),
{
    let mut r: Vec<char> = Vec::new();
    append_str(&mut r, "keystroke \"");
    let e = applescript_escape_chars(chunk);
    append_chars(&mut r, &e);
    append_str(&mut r, "\"");
    r
}

fn push_line_commands(out: &mut Vec<Vec<char>>, line: &[char])
    ensures
        chars_views(final(out)@) == chars_views(old(out)@) + line_commands(line@),
{
    let ghost start = chars_views(out@);
    let n = line.len();
    let mut pos: usize = 0;
    assert(line@.skip(0) =~= line@);
    while pos < n
        invariant
            pos <= n == line@.len(),
            start + line_commands(line@) == chars_views(out@) + line_commands(line@.skip(pos as int)),
        decreases n - pos,
    {
        let ghost rest = line@.skip(pos as int);
        let end = if n - pos <= TERMINAL_TYPE_CHUNK_SIZE {
            n
        } else {
            pos + TERMINAL_TYPE_CHUNK_SIZE
        };
        let chunk = copy_range(line, pos, end);
        let cmd = keystroke_line(&chunk);
        let ghost before = chars_views(out@);
        out.push(cmd);
        assert(chars_views(out@) =~= before.push(keystroke_command(chunk@)));
        proof {
            if n - pos <= TERMINAL_TYPE_CHUNK_SIZE {
                assert(chunk@ =~= rest);
                assert(line@.skip(n as int) =~= Seq::<char>::empty());
                assert(chunks(rest, TERMINAL_TYPE_CHUNK_SIZE as nat) == seq![rest]);
                assert(line_commands(rest) =~= seq![keystroke_command(chunk@)]);
                assert(line_commands(line@.skip(n as int)) =~= Seq::<Seq<char>>::empty());
            } else {
                assert(chunk@ =~= rest.take(TERMINAL_TYPE_CHUNK_SIZE as int));
                assert(rest.skip(TERMINAL_TYPE_CHUNK_SIZE as int) =~= line@.skip(
                    pos + TERMINAL_TYPE_CHUNK_SIZE,
                ));
                assert(line_commands(rest) =~= seq![keystroke_command(chunk@)] + line_commands(
                    line@.skip(pos + TERMINAL_TYPE_CHUNK_SIZE),
                ));
            }
        }
        pos = end;
    }
    assert(line_commands(line@.skip(n as int)) =~= Seq::<Seq<char>>::empty()) by {
        assert(line@.skip(n as int) =~= Seq::<char>::empty());
    }
    assert(chars_views(out@) =~= start + line_commands(line@));
}

pub fn build_typing_script(text: &str) -> (r: String)
    ensures
        r@ == typing_script(text@),
{
    let chars = chars_of(text);
    let lines = split_chars(&chars, '\n');
    let ghost lv = chars_views(lines@);
    let mut commands: Vec<Vec<char>> = Vec::new();
    commands.push(chars_of("tell application \"System Events\""));
    let ghost header = chars_views(commands@);
    assert(header =~= seq!["tell application \"System Events\""@]);
    for i in 0..lines.len()
        invariant
            lv == chars_views(lines@),
            lv == split_on(text@, '\n'),
            header == seq!["tell application \"System Events\""@],
            chars_views(commands@) == header + typing_commands(lv.take(i as int)),
    {
        assert(lv.take(i + 1).drop_last() =~= lv.take(i as int));
        if i > 0 {
            let ghost before = chars_views(commands@);
            commands.push(chars_of("key code 36"));
            assert(chars_views(commands@) =~= before.push("key code 36"@));
        }
        push_line_commands(&mut commands, &lines[i]);
        assert(chars_views(commands@) =~= header + typing_commands(lv.take(i + 1)));
    }
    assert(lv.take(lines.len() as int) =~= lv);
    let ghost body = chars_views(commands@);
    commands.push(chars_of("end tell"));
    assert(chars_views(commands@) =~= body.push("end tell"@));
    let script = join_chars(&commands, "\n");
    assert(chars_views(commands@) =~= seq!["tell application \"System Events\""@] + typing_commands(
        split_on(text@, '\n'),
    ) + seq!["end tell"@]);
    string_of(&script)
}

/// The script that brings an application to the front.
pub open spec fn activation_script(app_name: Seq<char>) -> Seq<char> {
    "tell application \""@ + applescript_escaped(app_name) + "\" to activate"@
}

/// Bringing the target application to the front first needs checking the
/// frontmost application, unless there is no target or the target is this
/// app.
pub open spec fn spec_activation_needs_check(target: Option<Seq<char>>, own_name: Seq<char>) -> bool {
    match target {
        Some(t) => !spec_app_names_match(own_name, t),
        None => false,
    }
}

pub fn activation_needs_frontmost_check(target: Option<&str>, own_name: &str) -> (b: bool)
    ensures
        b == spec_activation_needs_check(
            match target {
                Some(t) => Some(t@),
                None => None,
            },
            own_name@,
        ),
{
    match target {
        Some(t) => !app_names_match(t, own_name),
        None => false,
    }
}

/// The activation script to run, unless the target is already frontmost.
pub fn activation_script_for(target: &str, frontmost: Option<&str>) -> (r: Option<String>)
    ensures
        match r {
            Some(s) => s@ == activation_script(target@) && !(frontmost matches Some(f)
                && spec_app_names_match(f@, target@)),
            None => frontmost matches Some(f) && spec_app_names_match(f@, target@),
        },
{
    match frontmost {
        Some(f) => {
            if app_names_match(f, target) {
                return None;
            }
        },
        None => {},
    }
    let mut v: Vec<char> = Vec::new();
    append_str(&mut v, "tell application \"");
    let escaped = applescript_escape(target);
    append_str(&mut v, escaped.as_str());
    append_str(&mut v, "\" to activate");
    Some(string_of(&v))
}

// ---------------------------------------------------------------------------
// Inserting text
// ---------------------------------------------------------------------------

/// How pasted text reaches the target application first.
#[derive(Clone, Copy, PartialEq, Eq, Structural, Debug)]
pub enum InsertionMethod {
    /// Type it with AppleScript keystrokes (terminals).
    TypeKeystrokes,
    /// Edit the focused element's value through the accessibility API.
    Accessibility,
    /// Put it on the clipboard and send the paste shortcut.
    Clipboard,
}

/// On macOS terminals are typed into and other apps are edited through
/// accessibility (the clipboard is the fallback of both); elsewhere only the
/// clipboard is available. Whether the target is a terminal is judged by the
/// captured target's name, or by the frontmost app when there is no target.
pub open spec fn spec_insertion_method(
    mac: bool,
    target: Option<Seq<char>>,
    frontmost_is_terminal: bool,
) -> InsertionMethod {
    if !mac {
        InsertionMethod::Clipboard
    } else if (match target {
        Some(t) => spec_is_terminal_like(t),
        None => frontmost_is_terminal,
    }) {
        InsertionMethod::TypeKeystrokes
    } else {
        InsertionMethod::Accessibility
    }
}

pub fn insertion_method(platform: Platform, target: Option<&str>, frontmost_is_terminal: bool) -> (m: InsertionMethod)
    ensures
        m == spec_insertion_method(
            platform.is_mac(),
            match target {
                Some(t) => Some(t@),
                None => None,
            },
            frontmost_is_terminal,
        ),
{
    if !platform.mac() {
        return InsertionMethod::Clipboard;
    }
    let terminal = match target {
        Some(t) => is_terminal_like_app(t),
        None => frontmost_is_terminal,
    };
    if terminal {
        InsertionMethod::TypeKeystrokes
    } else {
        InsertionMethod::Accessibility
    }
}

/// The clipboard is given back its previous text only if it still holds the
/// dictated text (the user did not copy something else meanwhile).
pub fn should_restore_clipboard(current: &str, temporary: &str) -> (b: bool)
    ensures
        b == (current@ == temporary@),
{
    let c = chars_of(current);
    let t = chars_of(temporary);
    chars_eq(&c, &t)
}

pub open spec fn clamp_index(x: int, n: int) -> int {
    if x < 0 {
        0
    } else if x > n {
        n
    } else {
        x
    }
}

/// The value of a text field after replacing the selected range
/// (`location`, `length`, in characters) with `inserted`, and the cursor
/// position after the insertion. Ranges beyond the text are clamped to it;
/// the cursor is the (non-negative) location plus the inserted length.
pub open spec fn spliced(text: Seq<char>, location: i64, length: i64, inserted: Seq<char>) -> (Seq<char>, int) {
    let start = if location < 0 {
        0int
    } else {
        location as int
    };
    let len = if length < 0 {
        0int
    } else {
        length as int
    };
    let s = clamp_index(start, text.len() as int);
    let e = clamp_index(start + len, text.len() as int);
    (text.take(s) + inserted + text.skip(e), start + inserted.len())
}

pub fn splice_text_at_range(text: &str, location: i64, length: i64, inserted_text: &str) -> (r: (
    String,
    i64,
))
    requires
        (if location < 0 {
            0int
        } else {
            location as int
        }) + inserted_text@.len() <= i64::MAX,
    ensures
        r.0@ == spliced(text@, location, length, inserted_text@).0,
        r.1 as int == spliced(text@, location, length, inserted_text@).1,
{
    let t = chars_of(text);
    let ins = chars_of(inserted_text);
    let n = t.len();
    let start: i64 = if location < 0 {
        0
    } else {
        location
    };
    let len: i64 = if length < 0 {
        0
    } else {
        length
    };
    let s: usize = if (start as u64) > (n as u64) {
        n
    } else {
        start as usize
    };
    let e: usize = if (start as u64) >= (n as u64) || (len as u64) >= (n as u64) - (start as u64) {
        n
    } else {
        (start as usize) + (len as usize)
    };
    let mut v = copy_range(&t, 0, s);
    append_chars(&mut v, &ins);
    let tail = copy_range(&t, e, n);
    append_chars(&mut v, &tail);
    let ghost sp = spliced(text@, location, length, inserted_text@);
    assert(v@ =~= sp.0);
    let cursor = start + (ins.len() as i64);
    (string_of(&v), cursor)
}


// ---------------------------------------------------------------------------
// Accessibility errors
// ---------------------------------------------------------------------------

/// The accessibility API's name for an error code (`AXError`).
pub open spec fn spec_ax_error_label(error: i32) -> Seq<char> {
    if error == 0 {
        "success"@
    } else if error == -25200 {
        "failure"@
    } else if error == -25201 {
        "illegal argument"@
    } else if error == -25202 {
        "invalid ui element"@
    } else if error == -25203 {
        "invalid ui element observer"@
    } else if error == -25204 {
        "cannot complete"@
    } else if error == -25205 {
        "attribute unsupported"@
    } else if error == -25206 {
        "action unsupported"@
    } else if error == -25207 {
        "notification unsupported"@
    } else if error == -25208 {
        "not implemented"@
    } else if error == -25209 {
        "notification already registered"@
    } else if error == -25210 {
        "notification not registered"@
    } else if error == -25211 {
        "api disabled"@
    } else if error == -25212 {
        "no value"@
    } else if error == -25213 {
        "parameterized attribute unsupported"@
    } else if error == -25214 {
        "not enough precision"@
    } else {
        "unknown ax error"@
    }
}

pub fn ax_error_label(error: i32) -> (s: &'static str)
    ensures
        s@ == spec_ax_error_label(error),
{
    match error {
        0 => "success",
        -25200 => "failure",
        -25201 => "illegal argument",
        -25202 => "invalid ui element",
        -25203 => "invalid ui element observer",
        -25204 => "cannot complete",
        -25205 => "attribute unsupported",
        -25206 => "action unsupported",
        -25207 => "notification unsupported",
        -25208 => "not implemented",
        -25209 => "notification already registered",
        -25210 => "notification not registered",
        -25211 => "api disabled",
        -25212 => "no value",
        -25213 => "parameterized attribute unsupported",
        -25214 => "not enough precision",
        _ => "unknown ax error",
    }
}

/// The error reported when an accessibility call on an attribute failed:
/// the attribute, what was attempted (`read`, `write`, `settable check`),
/// the error's name and its code.
pub fn ax_attribute_error_message(attribute: &str, operation: &str, error: i32) -> (s: String)
    ensures
        s@ == attribute@ + " "@ + operation@ + " failed: "@ + spec_ax_error_label(error) + " ("@
            + signed_decimal(error as int) + ")"@,
{
    let mut v: Vec<char> = Vec::new();
    append_str(&mut v, attribute);
    append_str(&mut v, " ");
    append_str(&mut v, operation);
    append_str(&mut v, " failed: ");
    append_str(&mut v, ax_error_label(error));
    append_str(&mut v, " (");
    push_signed_decimal(&mut v, error as i64);
    append_str(&mut v, ")");
    string_of(&v)
}

/// `AXValueType` of a text range.
pub const AX_VALUE_CF_RANGE_TYPE: u32 = 4;

/// `AXValueType` that marks an unusable value.
pub const AX_VALUE_ILLEGAL_TYPE: u32 = 0;

/// Checks the value read for the selected text range before it is decoded:
/// it must be an accessibility value holding a text range.
pub fn check_selected_range_value(is_ax_value: bool, value_type: u32) -> (r: Result<(), String>)
    ensures
        !is_ax_value ==> (r matches Err(e) && e@ == "AXSelectedTextRange was not an AXValue"@),
        is_ax_value && value_type == AX_VALUE_ILLEGAL_TYPE ==> (r matches Err(e) && e@
            == "AXSelectedTextRange used an illegal AXValue type"@),
        is_ax_value && value_type != AX_VALUE_ILLEGAL_TYPE && value_type != AX_VALUE_CF_RANGE_TYPE
            ==> (r matches Err(e) && e@ == "AXSelectedTextRange used AXValue type "@ + decimal(
            value_type as nat,
        ) + " instead of CFRange"@),
        is_ax_value && value_type == AX_VALUE_CF_RANGE_TYPE ==> r is Ok,
{
    if !is_ax_value {
        return Err("AXSelectedTextRange was not an AXValue".to_string());
    }
    if value_type == AX_VALUE_ILLEGAL_TYPE {
        return Err("AXSelectedTextRange used an illegal AXValue type".to_string());
    }
    if value_type != AX_VALUE_CF_RANGE_TYPE {
        let mut v: Vec<char> = Vec::new();
        append_str(&mut v, "AXSelectedTextRange used AXValue type ");
        push_decimal(&mut v, value_type as u64);
        append_str(&mut v, " instead of CFRange");
        return Err(string_of(&v));
    }
    Ok(())
}

/// Why the fallback to the target application's focused element failed,
/// after the system-wide focused element could not be read.
pub enum FocusFallbackFailure {
    /// No process was found for the target (or frontmost) application.
    NoProcess,
    /// The accessibility object of the process with this id could not be made.
    NoApplicationElement(i32),
    /// Reading the focused element of the process with this id failed.
    ReadFailed(i32, String),
}

/// The error reported when no focused element could be found: the
/// system-wide error followed by why the per-application fallback failed.
pub fn focused_element_error(system_error: &str, failure: &FocusFallbackFailure) -> (s: String)
    ensures
        s@ == system_error@ + match failure {
            FocusFallbackFailure::NoProcess => "; target app process could not be resolved"@,
            FocusFallbackFailure::NoApplicationElement(pid) =>
                "; failed to create target AX application for pid "@ + signed_decimal(*pid as int),
            FocusFallbackFailure::ReadFailed(pid, e) =>
                "; target app AXFocusedUIElement read failed for pid "@ + signed_decimal(*pid as int)
                    + ": "@ + e@,
        },
{
    let mut v = chars_of(system_error);
    match failure {
        FocusFallbackFailure::NoProcess => {
            append_str(&mut v, "; target app process could not be resolved");
        },
        FocusFallbackFailure::NoApplicationElement(pid) => {
            append_str(&mut v, "; failed to create target AX application for pid ");
            push_signed_decimal(&mut v, *pid as i64);
        },
        FocusFallbackFailure::ReadFailed(pid, e) => {
            append_str(&mut v, "; target app AXFocusedUIElement read failed for pid ");
            push_signed_decimal(&mut v, *pid as i64);
            append_str(&mut v, ": ");
            append_str(&mut v, e.as_str());
        },
    }
    string_of(&v)
}

// ---------------------------------------------------------------------------
// Insertion failures
// ---------------------------------------------------------------------------

/// The error when the target application could not be brought to the
/// front: the script's trimmed error output, or advice when there is none.
pub fn activation_failure_message(stderr: &str) -> (s: String)
    ensures
        s@ == "Failed to reactivate target app before paste. "@ + if trim(stderr@).len() == 0 {
            "Bring the destination app to the front and try again."@
        } else {
            trim(stderr@)
        },
{
    let mut v: Vec<char> = Vec::new();
    append_str(&mut v, "Failed to reactivate target app before paste. ");
    let t = trim_str(stderr);
    if t.len() == 0 {
        append_str(&mut v, "Bring the destination app to the front and try again.");
    } else {
        append_chars(&mut v, &t);
    }
    string_of(&v)
}

/// The error when typing into a terminal failed, with the script's error
/// output.
pub fn typing_failure_message(stderr: &str) -> (s: String)
    ensures
        s@ == "Terminal typing fallback failed. Check Accessibility permissions. "@ + stderr@,
{
    let mut v: Vec<char> = Vec::new();
    append_str(&mut v, "Terminal typing fallback failed. Check Accessibility permissions. ");
    append_str(&mut v, stderr);
    string_of(&v)
}

pub open spec fn paste_needs_accessibility_message(app_name: Seq<char>) -> Seq<char> {
    "Paste failed because Accessibility permission is missing. Open System Settings > Privacy & Security > Accessibility and enable "@
        + app_name + ", then use the app's Open Accessibility Settings button to jump there."@
}

/// The error reported when the paste keystroke failed on both attempts: on
/// macOS with Accessibility supported but not granted, a pointer to that
/// permission; otherwise the keystroke's own error.
pub fn paste_failure_message(
    platform: Platform,
    accessibility_supported: bool,
    accessibility_granted: bool,
    keystroke_error: &str,
    app_name: &str,
) -> (s: String)
    ensures
        platform.is_mac() && accessibility_supported && !accessibility_granted ==> s@
            == paste_needs_accessibility_message(app_name@),
        !(platform.is_mac() && accessibility_supported && !accessibility_granted) ==> s@
            == keystroke_error@,
{
    if platform.mac() && accessibility_supported && !accessibility_granted {
        let mut v: Vec<char> = Vec::new();
        append_str(
            &mut v,
            "Paste failed because Accessibility permission is missing. Open System Settings > Privacy & Security > Accessibility and enable ",
        );
        append_str(&mut v, app_name);
        append_str(&mut v, ", then use the app's Open Accessibility Settings button to jump there.");
        string_of(&v)
    } else {
        keystroke_error.to_string()
    }
}


// ---------------------------------------------------------------------------
// Laws of the script text
// ---------------------------------------------------------------------------

/// How AppleScript reads the body of a string literal: a backslash makes
/// the next character literal.
pub open spec fn applescript_unescaped(e: Seq<char>) -> Seq<char>
    decreases e.len(),
{
    if e.len() == 0 {
        Seq::empty()
    } else if e[0] == '\\' && e.len() >= 2 {
        seq![e[1]] + applescript_unescaped(e.skip(2))
    } else {
        seq![e[0]] + applescript_unescaped(e.skip(1))
    }
}

proof fn lemma_escaped_concat(a: Seq<char>, b: Seq<char>)
    ensures
        applescript_escaped(a + b) == applescript_escaped(a) + applescript_escaped(b),
    decreases b.len(),
{
    if b.len() == 0 {
        assert(a + b =~= a);
        assert(applescript_escaped(b) =~= Seq::<char>::empty());
        assert(applescript_escaped(a) + applescript_escaped(b) =~= applescript_escaped(a));
    } else {
        lemma_escaped_concat(a, b.drop_last());
        assert((a + b).drop_last() =~= a + b.drop_last());
        assert((a + b).last() == b.last());
        assert(applescript_escaped(a) + applescript_escaped(b) =~= applescript_escaped(a)
            + applescript_escaped(b.drop_last()) + escape_char(b.last()));
    }
}

/// AppleScript reads an escaped literal back as the text that was escaped,
/// so the typed text and the activated names are exactly the ones given.
pub proof fn lemma_applescript_escape_round_trip(s: Seq<char>)
    ensures
        applescript_unescaped(applescript_escaped(s)) == s,
    decreases s.len(),
{
    if s.len() > 0 {
        let c = s[0];
        let rest = s.skip(1);
        assert(s =~= seq![c] + rest);
        lemma_escaped_concat(seq![c], rest);
        assert(seq![c].drop_last() =~= Seq::<char>::empty());
        assert(seq![c].last() == c);
        assert(applescript_escaped(Seq::<char>::empty()) == Seq::<char>::empty());
        assert(applescript_escaped(seq![c]) == applescript_escaped(Seq::<char>::empty())
            + escape_char(c));
        assert(applescript_escaped(seq![c]) =~= escape_char(c));
        lemma_applescript_escape_round_trip(rest);
        let e = escape_char(c) + applescript_escaped(rest);
        if c == '\\' || c == '"' {
            assert(e.skip(2) =~= applescript_escaped(rest));
        } else {
            assert(e.skip(1) =~= applescript_escaped(rest));
        }
        assert(seq![c] + rest =~= s);
    }
}

/// The concatenation of the pieces.
pub open spec fn flatten(pieces: Seq<Seq<char>>) -> Seq<char>
    decreases pieces.len(),
{
    if pieces.len() == 0 {
        Seq::empty()
    } else {
        pieces[0] + flatten(pieces.skip(1))
    }
}

/// Cutting a line into keystroke chunks loses and reorders nothing: the
/// chunks, in order, make up the line, and each holds between one and `n`
/// characters.
pub proof fn lemma_chunks_cover_line(s: Seq<char>, n: nat)
    requires
        n > 0,
    ensures
        flatten(chunks(s, n)) == s,
        forall|i: int|
            0 <= i < chunks(s, n).len() ==> 0 < (#[trigger] chunks(s, n)[i]).len() <= n,
    decreases s.len(),
{
    if s.len() == 0 {
        assert(chunks(s, n) == Seq::<Seq<char>>::empty());
    } else if s.len() <= n {
        let c = chunks(s, n);
        assert(c == seq![s]);
        assert(c.skip(1) =~= Seq::<Seq<char>>::empty());
        assert(flatten(c.skip(1)) == Seq::<char>::empty());
        assert(flatten(c) == c[0] + flatten(c.skip(1)));
        assert(s + Seq::<char>::empty() =~= s);
    } else {
        let rest = s.skip(n as int);
        lemma_chunks_cover_line(rest, n);
        let c = chunks(s, n);
        assert(c == seq![s.take(n as int)] + chunks(rest, n));
        assert(c.skip(1) =~= chunks(rest, n));
        assert(s.take(n as int) + rest =~= s);
        assert(flatten(c) == c[0] + flatten(c.skip(1)));
        assert forall|i: int| 0 <= i < c.len() implies 0 < (#[trigger] c[i]).len() <= n by {
            if i > 0 {
                assert(c[i] == chunks(rest, n)[i - 1]);
            }
        }
    }
}

/// The name fragments by which terminals and terminal editors are known:
/// Terminal.app and other "terminal" apps, iTerm, Warp, WezTerm, Alacritty,
/// kitty, tmux, cmux, Zellij, screen, Neovim, Vim, Helix and hx.
pub open spec fn known_terminal_marker(marker: Seq<char>) -> bool {
    ||| marker == "terminal"@
    ||| marker == "iterm"@
    ||| marker == "warp"@
    ||| marker == "wezterm"@
    ||| marker == "alacritty"@
    ||| marker == "kitty"@
    ||| marker == "tmux"@
    ||| marker == "cmux"@
    ||| marker == "zellij"@
    ||| marker == "screen"@
    ||| marker == "nvim"@
    ||| marker == "vim"@
    ||| marker == "helix"@
    ||| marker == "hx"@
}

/// An application whose name, ASCII-lower-cased, contains one of the known
/// terminal markers (so "Terminal", "iTerm2", "GNOME Terminal") is a
/// terminal: on macOS the transcript is typed into it, elsewhere it is
/// pasted from the clipboard as into any other app.
pub proof fn lemma_terminal_apps_are_typed_into(
    app_name: Seq<char>,
    marker: Seq<char>,
    frontmost_is_terminal: bool,
)
    requires
        known_terminal_marker(marker),
        contains_seq(lower_seq(app_name), marker),
    ensures
        spec_is_terminal_like(app_name),
        spec_insertion_method(true, Some(app_name), frontmost_is_terminal)
            == InsertionMethod::TypeKeystrokes,
        spec_insertion_method(false, Some(app_name), frontmost_is_terminal)
            == InsertionMethod::Clipboard,
{
}

/// Whether an application is a terminal does not depend on the case of its
/// ASCII letters.
pub proof fn lemma_terminal_test_ignores_case(a: Seq<char>, b: Seq<char>)
    requires
        lower_seq(a) == lower_seq(b),
    ensures
        spec_is_terminal_like(a) == spec_is_terminal_like(b),
{
}

} // verus!
