//! The macOS keyboard layer: virtual key codes, Quartz event modifier flags,
//! and their correspondence with the shortcut model.
use vstd::prelude::*;

use crate::bindings::{MOD_ALT, MOD_CONTROL, MOD_SHIFT, MOD_SUPER};
use crate::text::str_eq;

verus! {

/// Quartz event flag bits for the standard modifiers.
pub const CG_EVENT_FLAG_MASK_SHIFT: u64 = 0x0002_0000;

pub const CG_EVENT_FLAG_MASK_CONTROL: u64 = 0x0004_0000;

pub const CG_EVENT_FLAG_MASK_ALT: u64 = 0x0008_0000;

pub const CG_EVENT_FLAG_MASK_COMMAND: u64 = 0x0010_0000;

/// The flag bit set while the Fn key is held.
pub const NX_SECONDARYFNMASK: u64 = 0x0080_0000;

/// Virtual key code of the Fn key.
pub const MAC_FN_KEYCODE: i64 = 0x3f;

/// The shortcut modifier bits that correspond to the modifier flags of a
/// Quartz keyboard event.
pub open spec fn mods_from_flags(flags: u64) -> u32 {
    ((if flags & CG_EVENT_FLAG_MASK_SHIFT != 0 {
        MOD_SHIFT
    } else {
        0
    }) + (if flags & CG_EVENT_FLAG_MASK_CONTROL != 0 {
        MOD_CONTROL
    } else {
        0
    }) + (if flags & CG_EVENT_FLAG_MASK_ALT != 0 {
        MOD_ALT
    } else {
        0
    }) + (if flags & CG_EVENT_FLAG_MASK_COMMAND != 0 {
        MOD_SUPER
    } else {
        0
    })) as u32
}

pub fn mac_standard_modifiers_from_flags(flags: u64) -> (m: u32)
    ensures
        m == mods_from_flags(flags),
{
    let mut m: u32 = 0;
    if flags & CG_EVENT_FLAG_MASK_SHIFT != 0 {
        m = m + MOD_SHIFT;
    }
    if flags & CG_EVENT_FLAG_MASK_CONTROL != 0 {
        m = m + MOD_CONTROL;
    }
    if flags & CG_EVENT_FLAG_MASK_ALT != 0 {
        m = m + MOD_ALT;
    }
    if flags & CG_EVENT_FLAG_MASK_COMMAND != 0 {
        m = m + MOD_SUPER;
    }
    m
}

/// The macOS virtual key code of a key, by its code name.
pub open spec fn mac_keycode(key: Seq<char>) -> Option<i64> {
    if key == "KeyA"@ {
        Some(0x00)
    } else if key == "KeyS"@ {
        Some(0x01)
    } else if key == "KeyD"@ {
        Some(0x02)
    } else if key == "KeyF"@ {
        Some(0x03)
    } else if key == "KeyH"@ {
        Some(0x04)
    } else if key == "KeyG"@ {
        Some(0x05)
    } else if key == "KeyZ"@ {
        Some(0x06)
    } else if key == "KeyX"@ {
        Some(0x07)
    } else if key == "KeyC"@ {
        Some(0x08)
    } else if key == "KeyV"@ {
        Some(0x09)
    } else if key == "KeyB"@ {
        Some(0x0b)
    } else if key == "KeyQ"@ {
        Some(0x0c)
    } else if key == "KeyW"@ {
        Some(0x0d)
    } else if key == "KeyE"@ {
        Some(0x0e)
    } else if key == "KeyR"@ {
        Some(0x0f)
    } else if key == "KeyY"@ {
        Some(0x10)
    } else if key == "KeyT"@ {
        Some(0x11)
    } else if key == "Digit1"@ {
        Some(0x12)
    } else if key == "Digit2"@ {
        Some(0x13)
    } else if key == "Digit3"@ {
        Some(0x14)
    } else if key == "Digit4"@ {
        Some(0x15)
    } else if key == "Digit6"@ {
        Some(0x16)
    } else if key == "Digit5"@ {
        Some(0x17)
    } else if key == "Equal"@ {
        Some(0x18)
    } else if key == "Digit9"@ {
        Some(0x19)
    } else if key == "Digit7"@ {
        Some(0x1a)
    } else if key == "Minus"@ {
        Some(0x1b)
    } else if key == "Digit8"@ {
        Some(0x1c)
    } else if key == "Digit0"@ {
        Some(0x1d)
    } else if key == "BracketRight"@ {
        Some(0x1e)
    } else if key == "KeyO"@ {
        Some(0x1f)
    } else if key == "KeyU"@ {
        Some(0x20)
    } else if key == "BracketLeft"@ {
        Some(0x21)
    } else if key == "KeyI"@ {
        Some(0x22)
    } else if key == "KeyP"@ {
        Some(0x23)
    } else if key == "Enter"@ {
        Some(0x24)
    } else if key == "KeyL"@ {
        Some(0x25)
    } else if key == "KeyJ"@ {
        Some(0x26)
    } else if key == "Quote"@ {
        Some(0x27)
    } else if key == "KeyK"@ {
        Some(0x28)
    } else if key == "Semicolon"@ {
        Some(0x29)
    } else if key == "Backslash"@ {
        Some(0x2a)
    } else if key == "Comma"@ {
        Some(0x2b)
    } else if key == "Slash"@ {
        Some(0x2c)
    } else if key == "KeyN"@ {
        Some(0x2d)
    } else if key == "KeyM"@ {
        Some(0x2e)
    } else if key == "Period"@ {
        Some(0x2f)
    } else if key == "Tab"@ {
        Some(0x30)
    } else if key == "Space"@ {
        Some(0x31)
    } else if key == "Backquote"@ {
        Some(0x32)
    } else if key == "Backspace"@ {
        Some(0x33)
    } else if key == "Escape"@ {
        Some(0x35)
    } else if key == "CapsLock"@ {
        Some(0x39)
    } else if key == "F17"@ {
        Some(0x40)
    } else if key == "NumpadDecimal"@ {
        Some(0x41)
    } else if key == "NumpadMultiply"@ {
        Some(0x43)
    } else if key == "PrintScreen"@ {
        Some(0x46)
    } else if key == "NumpadAdd"@ {
        Some(0x45)
    } else if key == "NumLock"@ {
        Some(0x47)
    } else if key == "AudioVolumeUp"@ {
        Some(0x48)
    } else if key == "AudioVolumeDown"@ {
        Some(0x49)
    } else if key == "AudioVolumeMute"@ {
        Some(0x4a)
    } else if key == "NumpadDivide"@ {
        Some(0x4b)
    } else if key == "NumpadEnter"@ {
        Some(0x4c)
    } else if key == "NumpadSubtract"@ {
        Some(0x4e)
    } else if key == "F18"@ {
        Some(0x4f)
    } else if key == "F19"@ {
        Some(0x50)
    } else if key == "NumpadEqual"@ {
        Some(0x51)
    } else if key == "Numpad0"@ {
        Some(0x52)
    } else if key == "Numpad1"@ {
        Some(0x53)
    } else if key == "Numpad2"@ {
        Some(0x54)
    } else if key == "Numpad3"@ {
        Some(0x55)
    } else if key == "Numpad4"@ {
        Some(0x56)
    } else if key == "Numpad5"@ {
        Some(0x57)
    } else if key == "Numpad6"@ {
        Some(0x58)
    } else if key == "Numpad7"@ {
        Some(0x59)
    } else if key == "F20"@ {
        Some(0x5a)
    } else if key == "Numpad8"@ {
        Some(0x5b)
    } else if key == "Numpad9"@ {
        Some(0x5c)
    } else if key == "F5"@ {
        Some(0x60)
    } else if key == "F6"@ {
        Some(0x61)
    } else if key == "F7"@ {
        Some(0x62)
    } else if key == "F3"@ {
        Some(0x63)
    } else if key == "F8"@ {
        Some(0x64)
    } else if key == "F9"@ {
        Some(0x65)
    } else if key == "F11"@ {
        Some(0x67)
    } else if key == "F13"@ {
        Some(0x69)
    } else if key == "F16"@ {
        Some(0x6a)
    } else if key == "F14"@ {
        Some(0x6b)
    } else if key == "F10"@ {
        Some(0x6d)
    } else if key == "F12"@ {
        Some(0x6f)
    } else if key == "F15"@ {
        Some(0x71)
    } else if key == "Insert"@ {
        Some(0x72)
    } else if key == "Home"@ {
        Some(0x73)
    } else if key == "PageUp"@ {
        Some(0x74)
    } else if key == "Delete"@ {
        Some(0x75)
    } else if key == "F4"@ {
        Some(0x76)
    } else if key == "End"@ {
        Some(0x77)
    } else if key == "F2"@ {
        Some(0x78)
    } else if key == "PageDown"@ {
        Some(0x79)
    } else if key == "F1"@ {
        Some(0x7a)
    } else if key == "ArrowLeft"@ {
        Some(0x7b)
    } else if key == "ArrowRight"@ {
        Some(0x7c)
    } else if key == "ArrowDown"@ {
        Some(0x7d)
    } else if key == "ArrowUp"@ {
        Some(0x7e)
    } else {
        None
    }
}

pub fn mac_keycode_for_code(key: &str) -> (r: Option<i64>)
    ensures
        r == mac_keycode(key@),
{
    if str_eq(key, "KeyA") {
        Some(0x00)
    } else if str_eq(key, "KeyS") {
        Some(0x01)
    } else if str_eq(key, "KeyD") {
        Some(0x02)
    } else if str_eq(key, "KeyF") {
        Some(0x03)
    } else if str_eq(key, "KeyH") {
        Some(0x04)
    } else if str_eq(key, "KeyG") {
        Some(0x05)
    } else if str_eq(key, "KeyZ") {
        Some(0x06)
    } else if str_eq(key, "KeyX") {
        Some(0x07)
    } else if str_eq(key, "KeyC") {
        Some(0x08)
    } else if str_eq(key, "KeyV") {
        Some(0x09)
    } else if str_eq(key, "KeyB") {
        Some(0x0b)
    } else if str_eq(key, "KeyQ") {
        Some(0x0c)
    } else if str_eq(key, "KeyW") {
        Some(0x0d)
    } else if str_eq(key, "KeyE") {
        Some(0x0e)
    } else if str_eq(key, "KeyR") {
        Some(0x0f)
    } else if str_eq(key, "KeyY") {
        Some(0x10)
    } else if str_eq(key, "KeyT") {
        Some(0x11)
    } else if str_eq(key, "Digit1") {
        Some(0x12)
    } else if str_eq(key, "Digit2") {
        Some(0x13)
    } else if str_eq(key, "Digit3") {
        Some(0x14)
    } else if str_eq(key, "Digit4") {
        Some(0x15)
    } else if str_eq(key, "Digit6") {
        Some(0x16)
    } else if str_eq(key, "Digit5") {
        Some(0x17)
    } else if str_eq(key, "Equal") {
        Some(0x18)
    } else if str_eq(key, "Digit9") {
        Some(0x19)
    } else if str_eq(key, "Digit7") {
        Some(0x1a)
    } else if str_eq(key, "Minus") {
        Some(0x1b)
    } else if str_eq(key, "Digit8") {
        Some(0x1c)
    } else if str_eq(key, "Digit0") {
        Some(0x1d)
    } else if str_eq(key, "BracketRight") {
        Some(0x1e)
    } else if str_eq(key, "KeyO") {
        Some(0x1f)
    } else if str_eq(key, "KeyU") {
        Some(0x20)
    } else if str_eq(key, "BracketLeft") {
        Some(0x21)
    } else if str_eq(key, "KeyI") {
        Some(0x22)
    } else if str_eq(key, "KeyP") {
        Some(0x23)
    } else if str_eq(key, "Enter") {
        Some(0x24)
    } else if str_eq(key, "KeyL") {
        Some(0x25)
    } else if str_eq(key, "KeyJ") {
        Some(0x26)
    } else if str_eq(key, "Quote") {
        Some(0x27)
    } else if str_eq(key, "KeyK") {
        Some(0x28)
    } else if str_eq(key, "Semicolon") {
        Some(0x29)
    } else if str_eq(key, "Backslash") {
        Some(0x2a)
    } else if str_eq(key, "Comma") {
        Some(0x2b)
    } else if str_eq(key, "Slash") {
        Some(0x2c)
    } else if str_eq(key, "KeyN") {
        Some(0x2d)
    } else if str_eq(key, "KeyM") {
        Some(0x2e)
    } else if str_eq(key, "Period") {
        Some(0x2f)
    } else if str_eq(key, "Tab") {
        Some(0x30)
    } else if str_eq(key, "Space") {
        Some(0x31)
    } else if str_eq(key, "Backquote") {
        Some(0x32)
    } else if str_eq(key, "Backspace") {
        Some(0x33)
    } else if str_eq(key, "Escape") {
        Some(0x35)
    } else if str_eq(key, "CapsLock") {
        Some(0x39)
    } else if str_eq(key, "F17") {
        Some(0x40)
    } else if str_eq(key, "NumpadDecimal") {
        Some(0x41)
    } else if str_eq(key, "NumpadMultiply") {
        Some(0x43)
    } else if str_eq(key, "PrintScreen") {
        Some(0x46)
    } else if str_eq(key, "NumpadAdd") {
        Some(0x45)
    } else if str_eq(key, "NumLock") {
        Some(0x47)
    } else if str_eq(key, "AudioVolumeUp") {
        Some(0x48)
    } else if str_eq(key, "AudioVolumeDown") {
        Some(0x49)
    } else if str_eq(key, "AudioVolumeMute") {
        Some(0x4a)
    } else if str_eq(key, "NumpadDivide") {
        Some(0x4b)
    } else if str_eq(key, "NumpadEnter") {
        Some(0x4c)
    } else if str_eq(key, "NumpadSubtract") {
        Some(0x4e)
    } else if str_eq(key, "F18") {
        Some(0x4f)
    } else if str_eq(key, "F19") {
        Some(0x50)
    } else if str_eq(key, "NumpadEqual") {
        Some(0x51)
    } else if str_eq(key, "Numpad0") {
        Some(0x52)
    } else if str_eq(key, "Numpad1") {
        Some(0x53)
    } else if str_eq(key, "Numpad2") {
        Some(0x54)
    } else if str_eq(key, "Numpad3") {
        Some(0x55)
    } else if str_eq(key, "Numpad4") {
        Some(0x56)
    } else if str_eq(key, "Numpad5") {
        Some(0x57)
    } else if str_eq(key, "Numpad6") {
        Some(0x58)
    } else if str_eq(key, "Numpad7") {
        Some(0x59)
    } else if str_eq(key, "F20") {
        Some(0x5a)
    } else if str_eq(key, "Numpad8") {
        Some(0x5b)
    } else if str_eq(key, "Numpad9") {
        Some(0x5c)
    } else if str_eq(key, "F5") {
        Some(0x60)
    } else if str_eq(key, "F6") {
        Some(0x61)
    } else if str_eq(key, "F7") {
        Some(0x62)
    } else if str_eq(key, "F3") {
        Some(0x63)
    } else if str_eq(key, "F8") {
        Some(0x64)
    } else if str_eq(key, "F9") {
        Some(0x65)
    } else if str_eq(key, "F11") {
        Some(0x67)
    } else if str_eq(key, "F13") {
        Some(0x69)
    } else if str_eq(key, "F16") {
        Some(0x6a)
    } else if str_eq(key, "F14") {
        Some(0x6b)
    } else if str_eq(key, "F10") {
        Some(0x6d)
    } else if str_eq(key, "F12") {
        Some(0x6f)
    } else if str_eq(key, "F15") {
        Some(0x71)
    } else if str_eq(key, "Insert") {
        Some(0x72)
    } else if str_eq(key, "Home") {
        Some(0x73)
    } else if str_eq(key, "PageUp") {
        Some(0x74)
    } else if str_eq(key, "Delete") {
        Some(0x75)
    } else if str_eq(key, "F4") {
        Some(0x76)
    } else if str_eq(key, "End") {
        Some(0x77)
    } else if str_eq(key, "F2") {
        Some(0x78)
    } else if str_eq(key, "PageDown") {
        Some(0x79)
    } else if str_eq(key, "F1") {
        Some(0x7a)
    } else if str_eq(key, "ArrowLeft") {
        Some(0x7b)
    } else if str_eq(key, "ArrowRight") {
        Some(0x7c)
    } else if str_eq(key, "ArrowDown") {
        Some(0x7d)
    } else if str_eq(key, "ArrowUp") {
        Some(0x7e)
    } else {
        None
    }
}

/// The token a key contributes to a captured shortcut, by virtual key code.
pub open spec fn capture_token(keycode: i64) -> Option<Seq<char>> {
    match keycode {
        0x00 => Some("A"@),
        0x0b => Some("B"@),
        0x08 => Some("C"@),
        0x02 => Some("D"@),
        0x0e => Some("E"@),
        0x03 => Some("F"@),
        0x05 => Some("G"@),
        0x04 => Some("H"@),
        0x22 => Some("I"@),
        0x26 => Some("J"@),
        0x28 => Some("K"@),
        0x25 => Some("L"@),
        0x2e => Some("M"@),
        0x2d => Some("N"@),
        0x1f => Some("O"@),
        0x23 => Some("P"@),
        0x0c => Some("Q"@),
        0x0f => Some("R"@),
        0x01 => Some("S"@),
        0x11 => Some("T"@),
        0x20 => Some("U"@),
        0x09 => Some("V"@),
        0x0d => Some("W"@),
        0x07 => Some("X"@),
        0x10 => Some("Y"@),
        0x06 => Some("Z"@),
        0x1d => Some("0"@),
        0x12 => Some("1"@),
        0x13 => Some("2"@),
        0x14 => Some("3"@),
        0x15 => Some("4"@),
        0x17 => Some("5"@),
        0x16 => Some("6"@),
        0x1a => Some("7"@),
        0x1c => Some("8"@),
        0x19 => Some("9"@),
        0x7a => Some("F1"@),
        0x78 => Some("F2"@),
        0x63 => Some("F3"@),
        0x76 => Some("F4"@),
        0x60 => Some("F5"@),
        0x61 => Some("F6"@),
        0x62 => Some("F7"@),
        0x64 => Some("F8"@),
        0x65 => Some("F9"@),
        0x6d => Some("F10"@),
        0x67 => Some("F11"@),
        0x6f => Some("F12"@),
        0x69 => Some("F13"@),
        0x6b => Some("F14"@),
        0x71 => Some("F15"@),
        0x6a => Some("F16"@),
        0x40 => Some("F17"@),
        0x4f => Some("F18"@),
        0x50 => Some("F19"@),
        0x5a => Some("F20"@),
        0x75 => Some("Delete"@),
        0x33 => Some("Backspace"@),
        0x24 => Some("Enter"@),
        0x35 => Some("Escape"@),
        0x73 => Some("Home"@),
        0x72 => Some("Insert"@),
        0x77 => Some("End"@),
        0x74 => Some("PageUp"@),
        0x79 => Some("PageDown"@),
        0x7b => Some("Left"@),
        0x7c => Some("Right"@),
        0x7d => Some("Down"@),
        0x7e => Some("Up"@),
        0x30 => Some("Tab"@),
        0x31 => Some("Space"@),
        0x18 => Some("="@),
        0x1b => Some("-"@),
        0x27 => Some("'"@),
        0x29 => Some(";"@),
        0x2c => Some("/"@),
        0x2b => Some(","@),
        0x2f => Some("."@),
        0x21 => Some("["@),
        0x1e => Some("]"@),
        0x2a => Some("\\"@),
        0x32 => Some("`"@),
        0x41 => Some("NumDecimal"@),
        0x43 => Some("NumMultiply"@),
        0x45 => Some("NumAdd"@),
        0x4b => Some("NumDivide"@),
        0x4c => Some("NumEnter"@),
        0x4e => Some("NumSubtract"@),
        0x51 => Some("NumEqual"@),
        0x52 => Some("Num0"@),
        0x53 => Some("Num1"@),
        0x54 => Some("Num2"@),
        0x55 => Some("Num3"@),
        0x56 => Some("Num4"@),
        0x57 => Some("Num5"@),
        0x58 => Some("Num6"@),
        0x59 => Some("Num7"@),
        0x5b => Some("Num8"@),
        0x5c => Some("Num9"@),
        _ => None,
    }
}

pub fn mac_capture_token_for_keycode(keycode: i64) -> (r: Option<&'static str>)
    ensures
        match r {
            Some(s) => capture_token(keycode) == Some(s@),
            None => capture_token(keycode) is None,
        },
{
    match keycode {
        0x00 => Some("A"),
        0x0b => Some("B"),
        0x08 => Some("C"),
        0x02 => Some("D"),
        0x0e => Some("E"),
        0x03 => Some("F"),
        0x05 => Some("G"),
        0x04 => Some("H"),
        0x22 => Some("I"),
        0x26 => Some("J"),
        0x28 => Some("K"),
        0x25 => Some("L"),
        0x2e => Some("M"),
        0x2d => Some("N"),
        0x1f => Some("O"),
        0x23 => Some("P"),
        0x0c => Some("Q"),
        0x0f => Some("R"),
        0x01 => Some("S"),
        0x11 => Some("T"),
        0x20 => Some("U"),
        0x09 => Some("V"),
        0x0d => Some("W"),
        0x07 => Some("X"),
        0x10 => Some("Y"),
        0x06 => Some("Z"),
        0x1d => Some("0"),
        0x12 => Some("1"),
        0x13 => Some("2"),
        0x14 => Some("3"),
        0x15 => Some("4"),
        0x17 => Some("5"),
        0x16 => Some("6"),
        0x1a => Some("7"),
        0x1c => Some("8"),
        0x19 => Some("9"),
        0x7a => Some("F1"),
        0x78 => Some("F2"),
        0x63 => Some("F3"),
        0x76 => Some("F4"),
        0x60 => Some("F5"),
        0x61 => Some("F6"),
        0x62 => Some("F7"),
        0x64 => Some("F8"),
        0x65 => Some("F9"),
        0x6d => Some("F10"),
        0x67 => Some("F11"),
        0x6f => Some("F12"),
        0x69 => Some("F13"),
        0x6b => Some("F14"),
        0x71 => Some("F15"),
        0x6a => Some("F16"),
        0x40 => Some("F17"),
        0x4f => Some("F18"),
        0x50 => Some("F19"),
        0x5a => Some("F20"),
        0x75 => Some("Delete"),
        0x33 => Some("Backspace"),
        0x24 => Some("Enter"),
        0x35 => Some("Escape"),
        0x73 => Some("Home"),
        0x72 => Some("Insert"),
        0x77 => Some("End"),
        0x74 => Some("PageUp"),
        0x79 => Some("PageDown"),
        0x7b => Some("Left"),
        0x7c => Some("Right"),
        0x7d => Some("Down"),
        0x7e => Some("Up"),
        0x30 => Some("Tab"),
        0x31 => Some("Space"),
        0x18 => Some("="),
        0x1b => Some("-"),
        0x27 => Some("'"),
        0x29 => Some(";"),
        0x2c => Some("/"),
        0x2b => Some(","),
        0x2f => Some("."),
        0x21 => Some("["),
        0x1e => Some("]"),
        0x2a => Some("\\"),
        0x32 => Some("`"),
        0x41 => Some("NumDecimal"),
        0x43 => Some("NumMultiply"),
        0x45 => Some("NumAdd"),
        0x4b => Some("NumDivide"),
        0x4c => Some("NumEnter"),
        0x4e => Some("NumSubtract"),
        0x51 => Some("NumEqual"),
        0x52 => Some("Num0"),
        0x53 => Some("Num1"),
        0x54 => Some("Num2"),
        0x55 => Some("Num3"),
        0x56 => Some("Num4"),
        0x57 => Some("Num5"),
        0x58 => Some("Num6"),
        0x59 => Some("Num7"),
        0x5b => Some("Num8"),
        0x5c => Some("Num9"),
        _ => None,
    }
}


// ---------------------------------------------------------------------------
// The two tables agree
// ---------------------------------------------------------------------------

/// The name a key is written with in a captured shortcut, by its code name:
/// letters and digits by themselves, arrows by their direction, keypad keys
/// with a `Num` prefix, punctuation by its character, other keys by their
/// code name. Caps Lock, Print Screen, Num Lock and the volume keys have no
/// shortcut name.
pub open spec fn key_label(code: Seq<char>) -> Option<Seq<char>> {
    if code == "KeyA"@ {
        Some("A"@)
    } else if code == "KeyS"@ {
        Some("S"@)
    } else if code == "KeyD"@ {
        Some("D"@)
    } else if code == "KeyF"@ {
        Some("F"@)
    } else if code == "KeyH"@ {
        Some("H"@)
    } else if code == "KeyG"@ {
        Some("G"@)
    } else if code == "KeyZ"@ {
        Some("Z"@)
    } else if code == "KeyX"@ {
        Some("X"@)
    } else if code == "KeyC"@ {
        Some("C"@)
    } else if code == "KeyV"@ {
        Some("V"@)
    } else if code == "KeyB"@ {
        Some("B"@)
    } else if code == "KeyQ"@ {
        Some("Q"@)
    } else if code == "KeyW"@ {
        Some("W"@)
    } else if code == "KeyE"@ {
        Some("E"@)
    } else if code == "KeyR"@ {
        Some("R"@)
    } else if code == "KeyY"@ {
        Some("Y"@)
    } else if code == "KeyT"@ {
        Some("T"@)
    } else if code == "Digit1"@ {
        Some("1"@)
    } else if code == "Digit2"@ {
        Some("2"@)
    } else if code == "Digit3"@ {
        Some("3"@)
    } else if code == "Digit4"@ {
        Some("4"@)
    } else if code == "Digit6"@ {
        Some("6"@)
    } else if code == "Digit5"@ {
        Some("5"@)
    } else if code == "Equal"@ {
        Some("="@)
    } else if code == "Digit9"@ {
        Some("9"@)
    } else if code == "Digit7"@ {
        Some("7"@)
    } else if code == "Minus"@ {
        Some("-"@)
    } else if code == "Digit8"@ {
        Some("8"@)
    } else if code == "Digit0"@ {
        Some("0"@)
    } else if code == "BracketRight"@ {
        Some("]"@)
    } else if code == "KeyO"@ {
        Some("O"@)
    } else if code == "KeyU"@ {
        Some("U"@)
    } else if code == "BracketLeft"@ {
        Some("["@)
    } else if code == "KeyI"@ {
        Some("I"@)
    } else if code == "KeyP"@ {
        Some("P"@)
    } else if code == "Enter"@ {
        Some("Enter"@)
    } else if code == "KeyL"@ {
        Some("L"@)
    } else if code == "KeyJ"@ {
        Some("J"@)
    } else if code == "Quote"@ {
        Some("'"@)
    } else if code == "KeyK"@ {
        Some("K"@)
    } else if code == "Semicolon"@ {
        Some(";"@)
    } else if code == "Backslash"@ {
        Some("\\"@)
    } else if code == "Comma"@ {
        Some(","@)
    } else if code == "Slash"@ {
        Some("/"@)
    } else if code == "KeyN"@ {
        Some("N"@)
    } else if code == "KeyM"@ {
        Some("M"@)
    } else if code == "Period"@ {
        Some("."@)
    } else if code == "Tab"@ {
        Some("Tab"@)
    } else if code == "Space"@ {
        Some("Space"@)
    } else if code == "Backquote"@ {
        Some("`"@)
    } else if code == "Backspace"@ {
        Some("Backspace"@)
    } else if code == "Escape"@ {
        Some("Escape"@)
    } else if code == "CapsLock"@ {
        None
    } else if code == "F17"@ {
        Some("F17"@)
    } else if code == "NumpadDecimal"@ {
        Some("NumDecimal"@)
    } else if code == "NumpadMultiply"@ {
        Some("NumMultiply"@)
    } else if code == "PrintScreen"@ {
        None
    } else if code == "NumpadAdd"@ {
        Some("NumAdd"@)
    } else if code == "NumLock"@ {
        None
    } else if code == "AudioVolumeUp"@ {
        None
    } else if code == "AudioVolumeDown"@ {
        None
    } else if code == "AudioVolumeMute"@ {
        None
    } else if code == "NumpadDivide"@ {
        Some("NumDivide"@)
    } else if code == "NumpadEnter"@ {
        Some("NumEnter"@)
    } else if code == "NumpadSubtract"@ {
        Some("NumSubtract"@)
    } else if code == "F18"@ {
        Some("F18"@)
    } else if code == "F19"@ {
        Some("F19"@)
    } else if code == "NumpadEqual"@ {
        Some("NumEqual"@)
    } else if code == "Numpad0"@ {
        Some("Num0"@)
    } else if code == "Numpad1"@ {
        Some("Num1"@)
    } else if code == "Numpad2"@ {
        Some("Num2"@)
    } else if code == "Numpad3"@ {
        Some("Num3"@)
    } else if code == "Numpad4"@ {
        Some("Num4"@)
    } else if code == "Numpad5"@ {
        Some("Num5"@)
    } else if code == "Numpad6"@ {
        Some("Num6"@)
    } else if code == "Numpad7"@ {
        Some("Num7"@)
    } else if code == "F20"@ {
        Some("F20"@)
    } else if code == "Numpad8"@ {
        Some("Num8"@)
    } else if code == "Numpad9"@ {
        Some("Num9"@)
    } else if code == "F5"@ {
        Some("F5"@)
    } else if code == "F6"@ {
        Some("F6"@)
    } else if code == "F7"@ {
        Some("F7"@)
    } else if code == "F3"@ {
        Some("F3"@)
    } else if code == "F8"@ {
        Some("F8"@)
    } else if code == "F9"@ {
        Some("F9"@)
    } else if code == "F11"@ {
        Some("F11"@)
    } else if code == "F13"@ {
        Some("F13"@)
    } else if code == "F16"@ {
        Some("F16"@)
    } else if code == "F14"@ {
        Some("F14"@)
    } else if code == "F10"@ {
        Some("F10"@)
    } else if code == "F12"@ {
        Some("F12"@)
    } else if code == "F15"@ {
        Some("F15"@)
    } else if code == "Insert"@ {
        Some("Insert"@)
    } else if code == "Home"@ {
        Some("Home"@)
    } else if code == "PageUp"@ {
        Some("PageUp"@)
    } else if code == "Delete"@ {
        Some("Delete"@)
    } else if code == "F4"@ {
        Some("F4"@)
    } else if code == "End"@ {
        Some("End"@)
    } else if code == "F2"@ {
        Some("F2"@)
    } else if code == "PageDown"@ {
        Some("PageDown"@)
    } else if code == "F1"@ {
        Some("F1"@)
    } else if code == "ArrowLeft"@ {
        Some("Left"@)
    } else if code == "ArrowRight"@ {
        Some("Right"@)
    } else if code == "ArrowDown"@ {
        Some("Down"@)
    } else if code == "ArrowUp"@ {
        Some("Up"@)
    } else {
        None
    }
}

/// The code name of the key with a given virtual key code, for the keys that
/// have a shortcut name.
pub open spec fn code_of_keycode(keycode: i64) -> Seq<char> {
    match keycode {
        0x00 => "KeyA"@,
        0x01 => "KeyS"@,
        0x02 => "KeyD"@,
        0x03 => "KeyF"@,
        0x04 => "KeyH"@,
        0x05 => "KeyG"@,
        0x06 => "KeyZ"@,
        0x07 => "KeyX"@,
        0x08 => "KeyC"@,
        0x09 => "KeyV"@,
        0x0b => "KeyB"@,
        0x0c => "KeyQ"@,
        0x0d => "KeyW"@,
        0x0e => "KeyE"@,
        0x0f => "KeyR"@,
        0x10 => "KeyY"@,
        0x11 => "KeyT"@,
        0x12 => "Digit1"@,
        0x13 => "Digit2"@,
        0x14 => "Digit3"@,
        0x15 => "Digit4"@,
        0x16 => "Digit6"@,
        0x17 => "Digit5"@,
        0x18 => "Equal"@,
        0x19 => "Digit9"@,
        0x1a => "Digit7"@,
        0x1b => "Minus"@,
        0x1c => "Digit8"@,
        0x1d => "Digit0"@,
        0x1e => "BracketRight"@,
        0x1f => "KeyO"@,
        0x20 => "KeyU"@,
        0x21 => "BracketLeft"@,
        0x22 => "KeyI"@,
        0x23 => "KeyP"@,
        0x24 => "Enter"@,
        0x25 => "KeyL"@,
        0x26 => "KeyJ"@,
        0x27 => "Quote"@,
        0x28 => "KeyK"@,
        0x29 => "Semicolon"@,
        0x2a => "Backslash"@,
        0x2b => "Comma"@,
        0x2c => "Slash"@,
        0x2d => "KeyN"@,
        0x2e => "KeyM"@,
        0x2f => "Period"@,
        0x30 => "Tab"@,
        0x31 => "Space"@,
        0x32 => "Backquote"@,
        0x33 => "Backspace"@,
        0x35 => "Escape"@,
        0x40 => "F17"@,
        0x41 => "NumpadDecimal"@,
        0x43 => "NumpadMultiply"@,
        0x45 => "NumpadAdd"@,
        0x4b => "NumpadDivide"@,
        0x4c => "NumpadEnter"@,
        0x4e => "NumpadSubtract"@,
        0x4f => "F18"@,
        0x50 => "F19"@,
        0x51 => "NumpadEqual"@,
        0x52 => "Numpad0"@,
        0x53 => "Numpad1"@,
        0x54 => "Numpad2"@,
        0x55 => "Numpad3"@,
        0x56 => "Numpad4"@,
        0x57 => "Numpad5"@,
        0x58 => "Numpad6"@,
        0x59 => "Numpad7"@,
        0x5a => "F20"@,
        0x5b => "Numpad8"@,
        0x5c => "Numpad9"@,
        0x60 => "F5"@,
        0x61 => "F6"@,
        0x62 => "F7"@,
        0x63 => "F3"@,
        0x64 => "F8"@,
        0x65 => "F9"@,
        0x67 => "F11"@,
        0x69 => "F13"@,
        0x6a => "F16"@,
        0x6b => "F14"@,
        0x6d => "F10"@,
        0x6f => "F12"@,
        0x71 => "F15"@,
        0x72 => "Insert"@,
        0x73 => "Home"@,
        0x74 => "PageUp"@,
        0x75 => "Delete"@,
        0x76 => "F4"@,
        0x77 => "End"@,
        0x78 => "F2"@,
        0x79 => "PageDown"@,
        0x7a => "F1"@,
        0x7b => "ArrowLeft"@,
        0x7c => "ArrowRight"@,
        0x7d => "ArrowDown"@,
        0x7e => "ArrowUp"@,
        _ => Seq::empty(),
    }
}

/// Capturing a key gives the name of the key it was registered under: for
/// every code name with a virtual key code, the capture token of that key
/// code is the key's shortcut name (none for the keys without one).
pub proof fn lemma_capture_token_names_the_key(code: Seq<char>, keycode: i64)
    requires
        mac_keycode(code) == Some(keycode),
    ensures
        capture_token(keycode) == key_label(code),
{
}

/// A few characters of a code name, enough to tell the code names of the
/// key table apart.
spec fn code_sig(s: Seq<char>) -> (nat, char, char, char, char, char, char, char) {
    (s.len(), char_at(s, 1), char_at(s, 2), char_at(s, 3), char_at(s, 5), char_at(s, 6), char_at(
        s,
        7,
    ), char_at(s, 11))
}

spec fn char_at(s: Seq<char>, i: int) -> char {
    if 0 <= i < s.len() {
        s[i]
    } else {
        '\0'
    }
}

/// Every key code that has a capture token is the virtual key code of a
/// code name whose shortcut name is that token; every other key code (the
/// Fn key among them) captures nothing.
#[verifier::rlimit(100)]
#[verifier::spinoff_prover]
pub proof fn lemma_capture_token_comes_from_a_key(keycode: i64)
    ensures
        capture_token(keycode) is Some ==> mac_keycode(code_of_keycode(keycode)) == Some(keycode)
            && key_label(code_of_keycode(keycode)) == capture_token(keycode),
{
    reveal_strlit("KeyA");
    assert(code_sig("KeyA"@) == (4nat, 'e', 'y', 'A', '\0', '\0', '\0', '\0'));
    reveal_strlit("KeyS");
    assert(code_sig("KeyS"@) == (4nat, 'e', 'y', 'S', '\0', '\0', '\0', '\0'));
    reveal_strlit("KeyD");
    assert(code_sig("KeyD"@) == (4nat, 'e', 'y', 'D', '\0', '\0', '\0', '\0'));
    reveal_strlit("KeyF");
    assert(code_sig("KeyF"@) == (4nat, 'e', 'y', 'F', '\0', '\0', '\0', '\0'));
    reveal_strlit("KeyH");
    assert(code_sig("KeyH"@) == (4nat, 'e', 'y', 'H', '\0', '\0', '\0', '\0'));
    reveal_strlit("KeyG");
    assert(code_sig("KeyG"@) == (4nat, 'e', 'y', 'G', '\0', '\0', '\0', '\0'));
    reveal_strlit("KeyZ");
    assert(code_sig("KeyZ"@) == (4nat, 'e', 'y', 'Z', '\0', '\0', '\0', '\0'));
    reveal_strlit("KeyX");
    assert(code_sig("KeyX"@) == (4nat, 'e', 'y', 'X', '\0', '\0', '\0', '\0'));
    reveal_strlit("KeyC");
    assert(code_sig("KeyC"@) == (4nat, 'e', 'y', 'C', '\0', '\0', '\0', '\0'));
    reveal_strlit("KeyV");
    assert(code_sig("KeyV"@) == (4nat, 'e', 'y', 'V', '\0', '\0', '\0', '\0'));
    reveal_strlit("KeyB");
    assert(code_sig("KeyB"@) == (4nat, 'e', 'y', 'B', '\0', '\0', '\0', '\0'));
    reveal_strlit("KeyQ");
    assert(code_sig("KeyQ"@) == (4nat, 'e', 'y', 'Q', '\0', '\0', '\0', '\0'));
    reveal_strlit("KeyW");
    assert(code_sig("KeyW"@) == (4nat, 'e', 'y', 'W', '\0', '\0', '\0', '\0'));
    reveal_strlit("KeyE");
    assert(code_sig("KeyE"@) == (4nat, 'e', 'y', 'E', '\0', '\0', '\0', '\0'));
    reveal_strlit("KeyR");
    assert(code_sig("KeyR"@) == (4nat, 'e', 'y', 'R', '\0', '\0', '\0', '\0'));
    reveal_strlit("KeyY");
    assert(code_sig("KeyY"@) == (4nat, 'e', 'y', 'Y', '\0', '\0', '\0', '\0'));
    reveal_strlit("KeyT");
    assert(code_sig("KeyT"@) == (4nat, 'e', 'y', 'T', '\0', '\0', '\0', '\0'));
    reveal_strlit("Digit1");
    assert(code_sig("Digit1"@) == (6nat, 'i', 'g', 'i', '1', '\0', '\0', '\0'));
    reveal_strlit("Digit2");
    assert(code_sig("Digit2"@) == (6nat, 'i', 'g', 'i', '2', '\0', '\0', '\0'));
    reveal_strlit("Digit3");
    assert(code_sig("Digit3"@) == (6nat, 'i', 'g', 'i', '3', '\0', '\0', '\0'));
    reveal_strlit("Digit4");
    assert(code_sig("Digit4"@) == (6nat, 'i', 'g', 'i', '4', '\0', '\0', '\0'));
    reveal_strlit("Digit6");
    assert(code_sig("Digit6"@) == (6nat, 'i', 'g', 'i', '6', '\0', '\0', '\0'));
    reveal_strlit("Digit5");
    assert(code_sig("Digit5"@) == (6nat, 'i', 'g', 'i', '5', '\0', '\0', '\0'));
    reveal_strlit("Equal");
    assert(code_sig("Equal"@) == (5nat, 'q', 'u', 'a', '\0', '\0', '\0', '\0'));
    reveal_strlit("Digit9");
    assert(code_sig("Digit9"@) == (6nat, 'i', 'g', 'i', '9', '\0', '\0', '\0'));
    reveal_strlit("Digit7");
    assert(code_sig("Digit7"@) == (6nat, 'i', 'g', 'i', '7', '\0', '\0', '\0'));
    reveal_strlit("Minus");
    assert(code_sig("Minus"@) == (5nat, 'i', 'n', 'u', '\0', '\0', '\0', '\0'));
    reveal_strlit("Digit8");
    assert(code_sig("Digit8"@) == (6nat, 'i', 'g', 'i', '8', '\0', '\0', '\0'));
    reveal_strlit("Digit0");
    assert(code_sig("Digit0"@) == (6nat, 'i', 'g', 'i', '0', '\0', '\0', '\0'));
    reveal_strlit("BracketRight");
    assert(code_sig("BracketRight"@) == (12nat, 'r', 'a', 'c', 'e', 't', 'R', 't'));
    reveal_strlit("KeyO");
    assert(code_sig("KeyO"@) == (4nat, 'e', 'y', 'O', '\0', '\0', '\0', '\0'));
    reveal_strlit("KeyU");
    assert(code_sig("KeyU"@) == (4nat, 'e', 'y', 'U', '\0', '\0', '\0', '\0'));
    reveal_strlit("BracketLeft");
    assert(code_sig("BracketLeft"@) == (11nat, 'r', 'a', 'c', 'e', 't', 'L', '\0'));
    reveal_strlit("KeyI");
    assert(code_sig("KeyI"@) == (4nat, 'e', 'y', 'I', '\0', '\0', '\0', '\0'));
    reveal_strlit("KeyP");
    assert(code_sig("KeyP"@) == (4nat, 'e', 'y', 'P', '\0', '\0', '\0', '\0'));
    reveal_strlit("Enter");
    assert(code_sig("Enter"@) == (5nat, 'n', 't', 'e', '\0', '\0', '\0', '\0'));
    reveal_strlit("KeyL");
    assert(code_sig("KeyL"@) == (4nat, 'e', 'y', 'L', '\0', '\0', '\0', '\0'));
    reveal_strlit("KeyJ");
    assert(code_sig("KeyJ"@) == (4nat, 'e', 'y', 'J', '\0', '\0', '\0', '\0'));
    reveal_strlit("Quote");
    assert(code_sig("Quote"@) == (5nat, 'u', 'o', 't', '\0', '\0', '\0', '\0'));
    reveal_strlit("KeyK");
    assert(code_sig("KeyK"@) == (4nat, 'e', 'y', 'K', '\0', '\0', '\0', '\0'));
    reveal_strlit("Semicolon");
    assert(code_sig("Semicolon"@) == (9nat, 'e', 'm', 'i', 'o', 'l', 'o', '\0'));
    reveal_strlit("Backslash");
    assert(code_sig("Backslash"@) == (9nat, 'a', 'c', 'k', 'l', 'a', 's', '\0'));
    reveal_strlit("Comma");
    assert(code_sig("Comma"@) == (5nat, 'o', 'm', 'm', '\0', '\0', '\0', '\0'));
    reveal_strlit("Slash");
    assert(code_sig("Slash"@) == (5nat, 'l', 'a', 's', '\0', '\0', '\0', '\0'));
    reveal_strlit("KeyN");
    assert(code_sig("KeyN"@) == (4nat, 'e', 'y', 'N', '\0', '\0', '\0', '\0'));
    reveal_strlit("KeyM");
    assert(code_sig("KeyM"@) == (4nat, 'e', 'y', 'M', '\0', '\0', '\0', '\0'));
    reveal_strlit("Period");
    assert(code_sig("Period"@) == (6nat, 'e', 'r', 'i', 'd', '\0', '\0', '\0'));
    reveal_strlit("Tab");
    assert(code_sig("Tab"@) == (3nat, 'a', 'b', '\0', '\0', '\0', '\0', '\0'));
    reveal_strlit("Space");
    assert(code_sig("Space"@) == (5nat, 'p', 'a', 'c', '\0', '\0', '\0', '\0'));
    reveal_strlit("Backquote");
    assert(code_sig("Backquote"@) == (9nat, 'a', 'c', 'k', 'u', 'o', 't', '\0'));
    reveal_strlit("Backspace");
    assert(code_sig("Backspace"@) == (9nat, 'a', 'c', 'k', 'p', 'a', 'c', '\0'));
    reveal_strlit("Escape");
    assert(code_sig("Escape"@) == (6nat, 's', 'c', 'a', 'e', '\0', '\0', '\0'));
    reveal_strlit("CapsLock");
    assert(code_sig("CapsLock"@) == (8nat, 'a', 'p', 's', 'o', 'c', 'k', '\0'));
    reveal_strlit("F17");
    assert(code_sig("F17"@) == (3nat, '1', '7', '\0', '\0', '\0', '\0', '\0'));
    reveal_strlit("NumpadDecimal");
    assert(code_sig("NumpadDecimal"@) == (13nat, 'u', 'm', 'p', 'd', 'D', 'e', 'a'));
    reveal_strlit("NumpadMultiply");
    assert(code_sig("NumpadMultiply"@) == (14nat, 'u', 'm', 'p', 'd', 'M', 'u', 'p'));
    reveal_strlit("PrintScreen");
    assert(code_sig("PrintScreen"@) == (11nat, 'r', 'i', 'n', 'S', 'c', 'r', '\0'));
    reveal_strlit("NumpadAdd");
    assert(code_sig("NumpadAdd"@) == (9nat, 'u', 'm', 'p', 'd', 'A', 'd', '\0'));
    reveal_strlit("NumLock");
    assert(code_sig("NumLock"@) == (7nat, 'u', 'm', 'L', 'c', 'k', '\0', '\0'));
    reveal_strlit("AudioVolumeUp");
    assert(code_sig("AudioVolumeUp"@) == (13nat, 'u', 'd', 'i', 'V', 'o', 'l', 'U'));
    reveal_strlit("AudioVolumeDown");
    assert(code_sig("AudioVolumeDown"@) == (15nat, 'u', 'd', 'i', 'V', 'o', 'l', 'D'));
    reveal_strlit("AudioVolumeMute");
    assert(code_sig("AudioVolumeMute"@) == (15nat, 'u', 'd', 'i', 'V', 'o', 'l', 'M'));
    reveal_strlit("NumpadDivide");
    assert(code_sig("NumpadDivide"@) == (12nat, 'u', 'm', 'p', 'd', 'D', 'i', 'e'));
    reveal_strlit("NumpadEnter");
    assert(code_sig("NumpadEnter"@) == (11nat, 'u', 'm', 'p', 'd', 'E', 'n', '\0'));
    reveal_strlit("NumpadSubtract");
    assert(code_sig("NumpadSubtract"@) == (14nat, 'u', 'm', 'p', 'd', 'S', 'u', 'a'));
    reveal_strlit("F18");
    assert(code_sig("F18"@) == (3nat, '1', '8', '\0', '\0', '\0', '\0', '\0'));
    reveal_strlit("F19");
    assert(code_sig("F19"@) == (3nat, '1', '9', '\0', '\0', '\0', '\0', '\0'));
    reveal_strlit("NumpadEqual");
    assert(code_sig("NumpadEqual"@) == (11nat, 'u', 'm', 'p', 'd', 'E', 'q', '\0'));
    reveal_strlit("Numpad0");
    assert(code_sig("Numpad0"@) == (7nat, 'u', 'm', 'p', 'd', '0', '\0', '\0'));
    reveal_strlit("Numpad1");
    assert(code_sig("Numpad1"@) == (7nat, 'u', 'm', 'p', 'd', '1', '\0', '\0'));
    reveal_strlit("Numpad2");
    assert(code_sig("Numpad2"@) == (7nat, 'u', 'm', 'p', 'd', '2', '\0', '\0'));
    reveal_strlit("Numpad3");
    assert(code_sig("Numpad3"@) == (7nat, 'u', 'm', 'p', 'd', '3', '\0', '\0'));
    reveal_strlit("Numpad4");
    assert(code_sig("Numpad4"@) == (7nat, 'u', 'm', 'p', 'd', '4', '\0', '\0'));
    reveal_strlit("Numpad5");
    assert(code_sig("Numpad5"@) == (7nat, 'u', 'm', 'p', 'd', '5', '\0', '\0'));
    reveal_strlit("Numpad6");
    assert(code_sig("Numpad6"@) == (7nat, 'u', 'm', 'p', 'd', '6', '\0', '\0'));
    reveal_strlit("Numpad7");
    assert(code_sig("Numpad7"@) == (7nat, 'u', 'm', 'p', 'd', '7', '\0', '\0'));
    reveal_strlit("F20");
    assert(code_sig("F20"@) == (3nat, '2', '0', '\0', '\0', '\0', '\0', '\0'));
    reveal_strlit("Numpad8");
    assert(code_sig("Numpad8"@) == (7nat, 'u', 'm', 'p', 'd', '8', '\0', '\0'));
    reveal_strlit("Numpad9");
    assert(code_sig("Numpad9"@) == (7nat, 'u', 'm', 'p', 'd', '9', '\0', '\0'));
    reveal_strlit("F5");
    assert(code_sig("F5"@) == (2nat, '5', '\0', '\0', '\0', '\0', '\0', '\0'));
    reveal_strlit("F6");
    assert(code_sig("F6"@) == (2nat, '6', '\0', '\0', '\0', '\0', '\0', '\0'));
    reveal_strlit("F7");
    assert(code_sig("F7"@) == (2nat, '7', '\0', '\0', '\0', '\0', '\0', '\0'));
    reveal_strlit("F3");
    assert(code_sig("F3"@) == (2nat, '3', '\0', '\0', '\0', '\0', '\0', '\0'));
    reveal_strlit("F8");
    assert(code_sig("F8"@) == (2nat, '8', '\0', '\0', '\0', '\0', '\0', '\0'));
    reveal_strlit("F9");
    assert(code_sig("F9"@) == (2nat, '9', '\0', '\0', '\0', '\0', '\0', '\0'));
    reveal_strlit("F11");
    assert(code_sig("F11"@) == (3nat, '1', '1', '\0', '\0', '\0', '\0', '\0'));
    reveal_strlit("F13");
    assert(code_sig("F13"@) == (3nat, '1', '3', '\0', '\0', '\0', '\0', '\0'));
    reveal_strlit("F16");
    assert(code_sig("F16"@) == (3nat, '1', '6', '\0', '\0', '\0', '\0', '\0'));
    reveal_strlit("F14");
    assert(code_sig("F14"@) == (3nat, '1', '4', '\0', '\0', '\0', '\0', '\0'));
    reveal_strlit("F10");
    assert(code_sig("F10"@) == (3nat, '1', '0', '\0', '\0', '\0', '\0', '\0'));
    reveal_strlit("F12");
    assert(code_sig("F12"@) == (3nat, '1', '2', '\0', '\0', '\0', '\0', '\0'));
    reveal_strlit("F15");
    assert(code_sig("F15"@) == (3nat, '1', '5', '\0', '\0', '\0', '\0', '\0'));
    reveal_strlit("Insert");
    assert(code_sig("Insert"@) == (6nat, 'n', 's', 'e', 't', '\0', '\0', '\0'));
    reveal_strlit("Home");
    assert(code_sig("Home"@) == (4nat, 'o', 'm', 'e', '\0', '\0', '\0', '\0'));
    reveal_strlit("PageUp");
    assert(code_sig("PageUp"@) == (6nat, 'a', 'g', 'e', 'p', '\0', '\0', '\0'));
    reveal_strlit("Delete");
    assert(code_sig("Delete"@) == (6nat, 'e', 'l', 'e', 'e', '\0', '\0', '\0'));
    reveal_strlit("F4");
    assert(code_sig("F4"@) == (2nat, '4', '\0', '\0', '\0', '\0', '\0', '\0'));
    reveal_strlit("End");
    assert(code_sig("End"@) == (3nat, 'n', 'd', '\0', '\0', '\0', '\0', '\0'));
    reveal_strlit("F2");
    assert(code_sig("F2"@) == (2nat, '2', '\0', '\0', '\0', '\0', '\0', '\0'));
    reveal_strlit("PageDown");
    assert(code_sig("PageDown"@) == (8nat, 'a', 'g', 'e', 'o', 'w', 'n', '\0'));
    reveal_strlit("F1");
    assert(code_sig("F1"@) == (2nat, '1', '\0', '\0', '\0', '\0', '\0', '\0'));
    reveal_strlit("ArrowLeft");
    assert(code_sig("ArrowLeft"@) == (9nat, 'r', 'r', 'o', 'L', 'e', 'f', '\0'));
    reveal_strlit("ArrowRight");
    assert(code_sig("ArrowRight"@) == (10nat, 'r', 'r', 'o', 'R', 'i', 'g', '\0'));
    reveal_strlit("ArrowDown");
    assert(code_sig("ArrowDown"@) == (9nat, 'r', 'r', 'o', 'D', 'o', 'w', '\0'));
    reveal_strlit("ArrowUp");
    assert(code_sig("ArrowUp"@) == (7nat, 'r', 'r', 'o', 'U', 'p', '\0', '\0'));
}

} // verus!
