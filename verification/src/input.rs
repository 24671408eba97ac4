//! Keyboard input encoding.
//!
//! [`keystroke_to_bytes`] converts a keystroke into the byte sequence a
//! terminal application expects on its PTY: fixed sequences for named keys,
//! CSI or SS3 arrow sequences depending on application cursor mode, control
//! and alt combinations, and the typed character itself for plain input.
//!
//! The encoding is a pure function of the keystroke and the terminal mode:
//! the contract states the produced bytes exactly, so two calls on the same
//! arguments always give the same answer.

use vstd::prelude::*;
use vstd::string::StrSliceExecFns;
use vstd::utf8::encode_utf8;

use crate::terminal::TermMode;

verus! {

/// The modifier keys held during a keystroke.
#[derive(Debug, Clone, Copy, PartialEq, Eq, Structural)]
pub struct Modifiers {
    pub control: bool,
    pub alt: bool,
    pub shift: bool,
}

impl Modifiers {
    /// No modifier held.
    pub open spec fn spec_none() -> Modifiers {
        Modifiers { control: false, alt: false, shift: false }
    }

    /// No modifier held.
    pub fn none() -> (r: Modifiers)
        ensures
            r == Modifiers::spec_none(),
    {
        Modifiers { control: false, alt: false, shift: false }
    }
}

/// A keystroke: the key name, the character it typed if any, and the
/// modifiers held.
///
/// Named keys use their lower-case names (`"enter"`, `"up"`, `"f5"`);
/// character keys use the character itself as the name. `key_char`, when
/// present, is the text the keystroke typed, with shift already applied.
#[derive(Debug, Clone)]
pub struct Keystroke {
    pub key: String,
    pub key_char: Option<String>,
    pub modifiers: Modifiers,
}

/// An arrow or navigation sequence: CSI form `ESC [ x` normally, SS3 form
/// `ESC O x` when application cursor mode is on.
pub open spec fn spec_arrow_bytes(final_byte: u8, mode: TermMode) -> Seq<u8> {
    if mode.app_cursor {
        seq![0x1bu8, 0x4fu8, final_byte]
    } else {
        seq![0x1bu8, 0x5bu8, final_byte]
    }
}

/// True if the key names a single ASCII character.
pub open spec fn spec_single_ascii(key: Seq<char>) -> bool {
    key.len() == 1 && (key[0] as u32) < 128
}

/// The ASCII uppercase counterpart of a character's code point; other
/// characters are unchanged.
pub open spec fn spec_to_ascii_upper(c: char) -> u32 {
    if 0x61 <= c as u32 <= 0x7a {
        (c as u32 - 0x20) as u32
    } else {
        c as u32
    }
}

/// True for ASCII letters.
pub open spec fn spec_is_ascii_alpha(c: char) -> bool {
    (0x41 <= c as u32 <= 0x5a) || (0x61 <= c as u32 <= 0x7a)
}

/// The control byte a `ctrl` combination produces: letters map to their
/// uppercase code point minus 0x40, and the six punctuation combinations map
/// to their fixed control bytes. Other characters produce nothing.
pub open spec fn spec_ctrl_byte(c: char) -> Option<u8> {
    if spec_is_ascii_alpha(c) {
        Some((spec_to_ascii_upper(c) - 0x40) as u8)
    } else if c == '[' {
        Some(0x1bu8)
    } else if c == '\\' {
        Some(0x1cu8)
    } else if c == ']' {
        Some(0x1du8)
    } else if c == '^' {
        Some(0x1eu8)
    } else if c == '_' {
        Some(0x1fu8)
    } else if c == '?' {
        Some(0x7fu8)
    } else {
        None
    }
}

/// What a keystroke that is not a named key produces: a control byte for
/// `ctrl` combinations, `ESC` plus the character for `alt` combinations, the
/// typed text for plain character input (falling back to the key name, upper
/// cased under shift), and nothing otherwise.
pub open spec fn spec_modifier_bytes(k: Keystroke, mode: TermMode) -> Option<Seq<u8>> {
    if k.modifiers.control && spec_single_ascii(k.key@) && spec_ctrl_byte(k.key@[0]) is Some {
        Some(seq![spec_ctrl_byte(k.key@[0])->Some_0])
    } else if k.modifiers.alt && spec_single_ascii(k.key@) {
        Some(seq![0x1bu8, k.key@[0] as u8])
    } else if k.key_char is Some && !k.modifiers.control && !k.modifiers.alt {
        Some(encode_utf8(k.key_char->Some_0@))
    } else if spec_single_ascii(k.key@) && !k.modifiers.control {
        if k.modifiers.shift {
            Some(seq![spec_to_ascii_upper(k.key@[0]) as u8])
        } else {
            Some(seq![k.key@[0] as u8])
        }
    } else {
        None
    }
}

/// The byte sequence a keystroke produces, or nothing when the keystroke has
/// no terminal encoding.
pub open spec fn spec_keystroke_bytes(k: Keystroke, mode: TermMode) -> Option<Seq<u8>> {
    let key = k.key@;
    if key == "space"@ {
        if k.modifiers.control {
            Some(seq![0x00u8])
        } else {
            Some(seq![0x20u8])
        }
    } else if key == "enter"@ {
        Some(seq![0x0du8])
    } else if key == "escape"@ {
        Some(seq![0x1bu8])
    } else if key == "backspace"@ {
        Some(seq![0x7fu8])
    } else if key == "tab"@ {
        if k.modifiers.shift {
            Some(seq![0x1bu8, 0x5bu8, 0x5au8])
        } else {
            Some(seq![0x09u8])
        }
    } else if key == "up"@ {
        Some(spec_arrow_bytes(0x41, mode))
    } else if key == "down"@ {
        Some(spec_arrow_bytes(0x42, mode))
    } else if key == "right"@ {
        Some(spec_arrow_bytes(0x43, mode))
    } else if key == "left"@ {
        Some(spec_arrow_bytes(0x44, mode))
    } else if key == "home"@ {
        Some(seq![0x1bu8, 0x5bu8, 0x48u8])
    } else if key == "end"@ {
        Some(seq![0x1bu8, 0x5bu8, 0x46u8])
    } else if key == "pageup"@ {
        Some(seq![0x1bu8, 0x5bu8, 0x35u8, 0x7eu8])
    } else if key == "pagedown"@ {
        Some(seq![0x1bu8, 0x5bu8, 0x36u8, 0x7eu8])
    } else if key == "insert"@ {
        Some(seq![0x1bu8, 0x5bu8, 0x32u8, 0x7eu8])
    } else if key == "delete"@ {
        Some(seq![0x1bu8, 0x5bu8, 0x33u8, 0x7eu8])
    } else if key == "f1"@ {
        Some(seq![0x1bu8, 0x4fu8, 0x50u8])
    } else if key == "f2"@ {
        Some(seq![0x1bu8, 0x4fu8, 0x51u8])
    } else if key == "f3"@ {
        Some(seq![0x1bu8, 0x4fu8, 0x52u8])
    } else if key == "f4"@ {
        Some(seq![0x1bu8, 0x4fu8, 0x53u8])
    } else if key == "f5"@ {
        Some(seq![0x1bu8, 0x5bu8, 0x31u8, 0x35u8, 0x7eu8])
    } else if key == "f6"@ {
        Some(seq![0x1bu8, 0x5bu8, 0x31u8, 0x37u8, 0x7eu8])
    } else if key == "f7"@ {
        Some(seq![0x1bu8, 0x5bu8, 0x31u8, 0x38u8, 0x7eu8])
    } else if key == "f8"@ {
        Some(seq![0x1bu8, 0x5bu8, 0x31u8, 0x39u8, 0x7eu8])
    } else if key == "f9"@ {
        Some(seq![0x1bu8, 0x5bu8, 0x32u8, 0x30u8, 0x7eu8])
    } else if key == "f10"@ {
        Some(seq![0x1bu8, 0x5bu8, 0x32u8, 0x31u8, 0x7eu8])
    } else if key == "f11"@ {
        Some(seq![0x1bu8, 0x5bu8, 0x32u8, 0x33u8, 0x7eu8])
    } else if key == "f12"@ {
        Some(seq![0x1bu8, 0x5bu8, 0x32u8, 0x34u8, 0x7eu8])
    } else {
        spec_modifier_bytes(k, mode)
    }
}

/// Compares two strings character by character.
fn str_eq(a: &str, b: &str) -> (r: bool)
    ensures
        r == (a@ == b@),
{
    let a_len = a.unicode_len();
    let b_len = b.unicode_len();
    if a_len != b_len {
        return false;
    }
    let mut i: usize = 0;
    while i < a_len
        invariant
            a_len == a@.len(),
            b_len == b@.len(),
            a_len == b_len,
            i <= a_len,
            forall|j: int| 0 <= j < i ==> a@[j] == b@[j],
        decreases a_len - i,
    {
        if a.get_char(i) != b.get_char(i) {
            return false;
        }
        i = i + 1;
    }
    proof {
        assert(a@ =~= b@);
    }
    true
}

/// A one-byte sequence.
fn byte_vec1(a: u8) -> (v: Vec<u8>)
    ensures
        v@ == seq![a],
{
    let mut v: Vec<u8> = Vec::new();
    v.push(a);
    v
}

/// A two-byte sequence.
fn byte_vec2(a: u8, b: u8) -> (v: Vec<u8>)
    ensures
        v@ == seq![a, b],
{
    let mut v: Vec<u8> = Vec::new();
    v.push(a);
    v.push(b);
    v
}

/// A three-byte sequence.
fn byte_vec3(a: u8, b: u8, c: u8) -> (v: Vec<u8>)
    ensures
        v@ == seq![a, b, c],
{
    let mut v: Vec<u8> = Vec::new();
    v.push(a);
    v.push(b);
    v.push(c);
    v
}

/// A four-byte sequence.
fn byte_vec4(a: u8, b: u8, c: u8, d: u8) -> (v: Vec<u8>)
    ensures
        v@ == seq![a, b, c, d],
{
    let mut v: Vec<u8> = Vec::new();
    v.push(a);
    v.push(b);
    v.push(c);
    v.push(d);
    v
}

/// A five-byte sequence.
fn byte_vec5(a: u8, b: u8, c: u8, d: u8, e: u8) -> (v: Vec<u8>)
    ensures
        v@ == seq![a, b, c, d, e],
{
    let mut v: Vec<u8> = Vec::new();
    v.push(a);
    v.push(b);
    v.push(c);
    v.push(d);
    v.push(e);
    v
}

/// An arrow or navigation sequence, CSI or SS3 form depending on the mode.
fn arrow_bytes(final_byte: u8, mode: TermMode) -> (v: Vec<u8>)
    ensures
        v@ == spec_arrow_bytes(final_byte, mode),
{
    if mode.app_cursor {
        byte_vec3(0x1b, 0x4f, final_byte)
    } else {
        byte_vec3(0x1b, 0x5b, final_byte)
    }
}

/// Convert a keystroke to terminal escape sequence bytes.
///
/// Returns `None` exactly when the keystroke produces no terminal bytes: a
/// bare modifier press, an unmapped control combination, or an unrecognized
/// special key.
pub fn keystroke_to_bytes(keystroke: &Keystroke, mode: TermMode) -> (r: Option<Vec<u8>>)
    ensures
        r matches Some(v) ==> spec_keystroke_bytes(*keystroke, mode) == Some(v@),
        r is None ==> spec_keystroke_bytes(*keystroke, mode) is None,
{
    let key = keystroke.key.as_str();
    if str_eq(key, "space") {
        if keystroke.modifiers.control {
            return Some(byte_vec1(0x00));  // Ctrl+Space = NUL
        }
        return Some(byte_vec1(0x20));
    }
    if str_eq(key, "enter") {
        return Some(byte_vec1(0x0d));
    }
    if str_eq(key, "escape") {
        return Some(byte_vec1(0x1b));
    }
    if str_eq(key, "backspace") {
        return Some(byte_vec1(0x7f));
    }
    if str_eq(key, "tab") {
        // Shift+Tab sends the backtab sequence.
        if keystroke.modifiers.shift {
            return Some(byte_vec3(0x1b, 0x5b, 0x5a));
        }
        return Some(byte_vec1(0x09));
    }
    // Arrow keys respect application cursor mode.
    if str_eq(key, "up") {
        return Some(arrow_bytes(0x41, mode));
    }
    if str_eq(key, "down") {
        return Some(arrow_bytes(0x42, mode));
    }
    if str_eq(key, "right") {
        return Some(arrow_bytes(0x43, mode));
    }
    if str_eq(key, "left") {
        return Some(arrow_bytes(0x44, mode));
    }
    // Navigation keys.
    if str_eq(key, "home") {
        return Some(byte_vec3(0x1b, 0x5b, 0x48));
    }
    if str_eq(key, "end") {
        return Some(byte_vec3(0x1b, 0x5b, 0x46));
    }
    if str_eq(key, "pageup") {
        return Some(byte_vec4(0x1b, 0x5b, 0x35, 0x7e));
    }
    if str_eq(key, "pagedown") {
        return Some(byte_vec4(0x1b, 0x5b, 0x36, 0x7e));
    }
    if str_eq(key, "insert") {
        return Some(byte_vec4(0x1b, 0x5b, 0x32, 0x7e));
    }
    if str_eq(key, "delete") {
        return Some(byte_vec4(0x1b, 0x5b, 0x33, 0x7e));
    }
    // Function keys: F1-F4 use the SS3 form, F5-F12 the CSI number form with
    // the traditional non-contiguous numbering.
    if str_eq(key, "f1") {
        return Some(byte_vec3(0x1b, 0x4f, 0x50));
    }
    if str_eq(key, "f2") {
        return Some(byte_vec3(0x1b, 0x4f, 0x51));
    }
    if str_eq(key, "f3") {
        return Some(byte_vec3(0x1b, 0x4f, 0x52));
    }
    if str_eq(key, "f4") {
        return Some(byte_vec3(0x1b, 0x4f, 0x53));
    }
    if str_eq(key, "f5") {
        return Some(byte_vec5(0x1b, 0x5b, 0x31, 0x35, 0x7e));
    }
    if str_eq(key, "f6") {
        return Some(byte_vec5(0x1b, 0x5b, 0x31, 0x37, 0x7e));
    }
    if str_eq(key, "f7") {
        return Some(byte_vec5(0x1b, 0x5b, 0x31, 0x38, 0x7e));
    }
    if str_eq(key, "f8") {
        return Some(byte_vec5(0x1b, 0x5b, 0x31, 0x39, 0x7e));
    }
    if str_eq(key, "f9") {
        return Some(byte_vec5(0x1b, 0x5b, 0x32, 0x30, 0x7e));
    }
    if str_eq(key, "f10") {
        return Some(byte_vec5(0x1b, 0x5b, 0x32, 0x31, 0x7e));
    }
    if str_eq(key, "f11") {
        return Some(byte_vec5(0x1b, 0x5b, 0x32, 0x33, 0x7e));
    }
    if str_eq(key, "f12") {
        return Some(byte_vec5(0x1b, 0x5b, 0x32, 0x34, 0x7e));
    }

    let key_len = key.unicode_len();
    let single_ascii = key_len == 1 && (key.get_char(0) as u32) < 128;

    // Ctrl combinations.
    if keystroke.modifiers.control && single_ascii {
        let c = key.get_char(0) as u32;
        if (c >= 0x41 && c <= 0x5a) || (c >= 0x61 && c <= 0x7a) {
            // Letters map to their uppercase code point minus 0x40.
            let upper = if c >= 0x61 && c <= 0x7a {
                c - 0x20
            } else {
                c
            };
            return Some(byte_vec1((upper - 0x40) as u8));
        }
        if c == 0x5b {  // '['
            return Some(byte_vec1(0x1b));
        }
        if c == 0x5c {  // '\'
            return Some(byte_vec1(0x1c));
        }
        if c == 0x5d {  // ']'
            return Some(byte_vec1(0x1d));
        }
        if c == 0x5e {  // '^'
            return Some(byte_vec1(0x1e));
        }
        if c == 0x5f {  // '_'
            return Some(byte_vec1(0x1f));
        }
        if c == 0x3f {  // '?'
            return Some(byte_vec1(0x7f));
        }
    }

    // Alt combinations: ESC followed by the character.
    if keystroke.modifiers.alt && single_ascii {
        let c = key.get_char(0) as u32;
        return Some(byte_vec2(0x1b, c as u8));
    }

    // The typed character, when the keystroke carries one.
    if let Some(key_char) = &keystroke.key_char {
        if !keystroke.modifiers.control && !keystroke.modifiers.alt {
            return Some(key_char.as_str().as_bytes_vec());
        }
    }

    // Fall back to the key name for single characters, upper cased when
    // shift is held.
    if single_ascii && !keystroke.modifiers.control {
        let c = key.get_char(0) as u32;
        let typed = if keystroke.modifiers.shift && c >= 0x61 && c <= 0x7a {
            c - 0x20
        } else {
            c
        };
        return Some(byte_vec1(typed as u8));
    }

    None
}

} // verus!
