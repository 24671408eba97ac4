//! Mouse input encoding and selection data.
//!
//! Mouse reporting uses the SGR form `ESC [ < B ; col ; row M` (press) or
//! `... m` (release), with 1-based coordinates and the modifier bits folded
//! into the button number. Scroll wheel events either become SGR wheel
//! reports, arrow-key presses on the alternate screen, or nothing at all, in
//! which case the host scrolls its own view.

use vstd::prelude::*;

use crate::terminal::TermMode;

verus! {

/// Type of text selection in the terminal.
#[derive(Debug, Clone, Copy, PartialEq, Eq, Structural)]
pub enum SelectionType {
    /// Character-by-character selection (single click).
    Simple,
    /// Word-based selection (double click).
    Word,
    /// Line-based selection (triple click).
    Line,
}

/// A position in the terminal grid. Lines above the visible screen (in
/// scrollback) are negative.
#[derive(Debug, Clone, Copy, PartialEq, Eq, Structural)]
pub struct CellPoint {
    pub line: i32,
    pub column: usize,
}

impl CellPoint {
    pub fn new(line: i32, column: usize) -> (r: Self)
        ensures
            r == (CellPoint { line, column }),
    {
        Self { line, column }
    }

    /// Grid order: first by line, then by column.
    pub open spec fn spec_le(self, other: CellPoint) -> bool {
        self.line < other.line || (self.line == other.line && self.column <= other.column)
    }

    /// Grid order: first by line, then by column.
    pub fn le(&self, other: &CellPoint) -> (r: bool)
        ensures
            r == self.spec_le(*other),
    {
        self.line < other.line || (self.line == other.line && self.column <= other.column)
    }
}

/// A text selection in the terminal: two endpoints, in either order, and the
/// selection kind.
#[derive(Debug, Clone, PartialEq, Eq, Structural)]
pub struct Selection {
    /// The starting point of the selection.
    pub start: CellPoint,
    /// The ending point of the selection.
    pub end: CellPoint,
    /// The type of selection (character, word, or line).
    pub selection_type: SelectionType,
}

impl Selection {
    /// Create a new selection.
    pub fn new(start: CellPoint, end: CellPoint, selection_type: SelectionType) -> (r: Self)
        ensures
            r == (Selection { start, end, selection_type }),
    {
        Self { start, end, selection_type }
    }

    /// A point lies in the selection when it falls between the two endpoints
    /// in grid order, both ends included, whichever endpoint comes first.
    pub open spec fn spec_contains(self, point: CellPoint) -> bool {
        let lo = if self.start.spec_le(self.end) {
            self.start
        } else {
            self.end
        };
        let hi = if self.start.spec_le(self.end) {
            self.end
        } else {
            self.start
        };
        lo.spec_le(point) && point.spec_le(hi)
    }

    /// Check if a point is within the selection.
    pub fn contains(&self, point: CellPoint) -> (r: bool)
        ensures
            r == self.spec_contains(point),
    {
        if self.start.le(&self.end) {
            self.start.le(&point) && point.le(&self.end)
        } else {
            self.end.le(&point) && point.le(&self.start)
        }
    }
}

/// The selection type `click_count` consecutive clicks ask for: one click
/// selects characters, two select words, anything else selects lines.
pub open spec fn spec_selection_type(click_count: usize) -> SelectionType {
    if click_count == 1 {
        SelectionType::Simple
    } else if click_count == 2 {
        SelectionType::Word
    } else {
        SelectionType::Line
    }
}

/// Determine the selection type based on the number of clicks.
pub fn selection_type_from_clicks(click_count: usize) -> (r: SelectionType)
    ensures
        r == spec_selection_type(click_count),
{
    match click_count {
        1 => SelectionType::Simple,
        2 => SelectionType::Word,
        _ => SelectionType::Line,
    }
}

/// Encode modifier keys as the SGR mouse report bitmask: bit 2 for shift,
/// bit 3 for alt, bit 4 for control.
pub open spec fn spec_encode_modifiers(shift: bool, alt: bool, control: bool) -> int {
    (if shift {
        4int
    } else {
        0int
    }) + (if alt {
        8int
    } else {
        0int
    }) + (if control {
        16int
    } else {
        0int
    })
}

/// Encode modifier keys as a bitmask for mouse reporting.
pub fn encode_modifiers(shift: bool, alt: bool, control: bool) -> (r: u8)
    ensures
        r == spec_encode_modifiers(shift, alt, control),
{
    let mut modifiers: u8 = 0;
    if shift {
        modifiers = modifiers + 4;
    }
    if alt {
        modifiers = modifiers + 8;
    }
    if control {
        modifiers = modifiers + 16;
    }
    modifiers
}

/// The decimal digits of `n`, most significant first, as ASCII bytes.
pub open spec fn spec_decimal(n: nat) -> Seq<u8>
    decreases n,
{
    if n < 10 {
        seq![(0x30 + n) as u8]
    } else {
        spec_decimal(n / 10).push((0x30 + n % 10) as u8)
    }
}

/// The decimal digits of `v` with a leading minus sign when negative.
pub open spec fn spec_signed_decimal(v: int) -> Seq<u8> {
    if v < 0 {
        seq![0x2du8] + spec_decimal((-v) as nat)
    } else {
        spec_decimal(v as nat)
    }
}

/// Appends the decimal digits of `n` to `out`.
fn push_decimal(out: &mut Vec<u8>, n: u64)
    ensures
        final(out)@ == old(out)@ + spec_decimal(n as nat),
    decreases n,
{
    if n < 10 {
        out.push(0x30 + n as u8);
        proof {
            assert(final(out)@ =~= old(out)@ + spec_decimal(n as nat));
        }
    } else {
        push_decimal(out, n / 10);
        out.push(0x30 + (n % 10) as u8);
        proof {
            assert(final(out)@ =~= old(out)@ + spec_decimal(n as nat));
        }
    }
}

/// Appends the decimal digits of `v`, sign included, to `out`.
fn push_decimal_signed(out: &mut Vec<u8>, v: i64)
    requires
        v != i64::MIN,
    ensures
        final(out)@ == old(out)@ + spec_signed_decimal(v as int),
{
    if v < 0 {
        out.push(0x2d);
        push_decimal(out, (-v) as u64);
        proof {
            assert(final(out)@ =~= old(out)@ + spec_signed_decimal(v as int));
        }
    } else {
        push_decimal(out, v as u64);
    }
}

/// An SGR mouse report: `ESC [ <`, the button number, the 1-based column and
/// row separated by semicolons, and the action byte.
pub open spec fn spec_sgr_report(button_value: u8, col: int, row: int, action: u8) -> Seq<u8> {
    seq![0x1bu8, 0x5bu8, 0x3cu8] + spec_decimal(button_value as nat) + seq![0x3bu8]
        + spec_signed_decimal(col) + seq![0x3bu8] + spec_signed_decimal(row) + seq![action]
}

/// Builds an SGR mouse report sequence.
fn sgr_report(button_value: u8, col: u64, row: i64, action: u8) -> (v: Vec<u8>)
    requires
        row != i64::MIN,
    ensures
        v@ == spec_sgr_report(button_value, col as int, row as int, action),
{
    let mut v: Vec<u8> = Vec::new();
    v.push(0x1b);
    v.push(0x5b);
    v.push(0x3c);
    push_decimal(&mut v, button_value as u64);
    v.push(0x3b);
    push_decimal(&mut v, col);
    v.push(0x3b);
    push_decimal_signed(&mut v, row);
    v.push(action);
    proof {
        assert(v@ =~= spec_sgr_report(button_value, col as int, row as int, action));
    }
    v
}

/// The mouse buttons a report can name. Everything that is not one of the
/// three reportable buttons produces no report.
#[derive(Debug, Clone, Copy, PartialEq, Eq, Structural)]
pub enum MouseButton {
    Left,
    Middle,
    Right,
    Other,
}

/// The SGR button code of a reportable button: left 0, middle 1, right 2.
pub open spec fn spec_button_code(button: MouseButton) -> Option<u8> {
    match button {
        MouseButton::Left => Some(0u8),
        MouseButton::Middle => Some(1u8),
        MouseButton::Right => Some(2u8),
        MouseButton::Other => None,
    }
}

/// The report a button event produces: nothing unless a mouse reporting mode
/// is on and the button is reportable; otherwise an SGR report whose button
/// number carries the modifier bits, whose coordinates are 1-based, and whose
/// action byte is `M` for a press and `m` for a release.
pub open spec fn spec_mouse_button_report(
    button: MouseButton,
    pressed: bool,
    point: CellPoint,
    modifiers: u8,
    mode: TermMode,
) -> Option<Seq<u8>> {
    if !mode.spec_any_mouse() {
        None
    } else {
        match spec_button_code(button) {
            Some(code) => Some(
                spec_sgr_report(
                    code | modifiers,
                    point.column + 1,
                    point.line + 1,
                    if pressed {
                        0x4du8
                    } else {
                        0x6du8
                    },
                ),
            ),
            None => None,
        }
    }
}

/// Generate a mouse button report escape sequence in SGR form.
///
/// Returns `None` exactly when no mouse reporting mode is enabled or the
/// button is not one of left, middle, right.
pub fn mouse_button_report(
    button: MouseButton,
    pressed: bool,
    point: CellPoint,
    modifiers: u8,
    mode: TermMode,
) -> (r: Option<Vec<u8>>)
    requires
        point.line < i32::MAX,
        point.column < usize::MAX,
    ensures
        r matches Some(v) ==> spec_mouse_button_report(button, pressed, point, modifiers, mode)
            == Some(v@),
        r is None ==> spec_mouse_button_report(button, pressed, point, modifiers, mode) is None,
{
    if !mode.any_mouse_mode() {
        return None;
    }
    let button_code: u8 = match button {
        MouseButton::Left => 0,
        MouseButton::Middle => 1,
        MouseButton::Right => 2,
        MouseButton::Other => {
            return None;
        },
    };
    let button_value = button_code | modifiers;
    let col = (point.column as u64) + 1;
    let row = (point.line as i64) + 1;
    let action: u8 = if pressed {
        0x4d
    } else {
        0x6d
    };
    Some(sgr_report(button_value, col, row, action))
}

/// The arrow sequence a scroll step produces: arrow up for an upward scroll,
/// arrow down for a downward one, in SS3 form under application cursor mode.
pub open spec fn spec_scroll_arrow(delta: i32, mode: TermMode) -> Seq<u8> {
    let final_byte: u8 = if delta > 0 {
        0x41u8
    } else {
        0x42u8
    };
    if mode.app_cursor {
        seq![0x1bu8, 0x4fu8, final_byte]
    } else {
        seq![0x1bu8, 0x5bu8, final_byte]
    }
}

/// `count` copies of `s`, one after another.
pub open spec fn spec_repeated(s: Seq<u8>, count: nat) -> Seq<u8>
    decreases count,
{
    if count == 0 {
        Seq::empty()
    } else {
        spec_repeated(s, (count - 1) as nat) + s
    }
}

/// How many arrow presses a scroll of `delta` lines becomes: the magnitude,
/// capped at five per scroll event.
pub open spec fn spec_scroll_arrow_count(delta: i32) -> nat {
    if delta >= 0 {
        if delta <= 5 {
            delta as nat
        } else {
            5
        }
    } else {
        if delta >= -5 {
            (-delta) as nat
        } else {
            5
        }
    }
}

/// Convert scroll delta to arrow key sequences: the matching arrow sequence,
/// repeated once per scrolled line, at most five times.
pub fn scroll_to_arrow_keys(delta: i32, mode: TermMode) -> (v: Vec<u8>)
    requires
        delta != i32::MIN,
    ensures
        v@ == spec_repeated(spec_scroll_arrow(delta, mode), spec_scroll_arrow_count(delta)),
{
    let magnitude: i32 = if delta >= 0 {
        delta
    } else {
        -delta
    };
    let count: usize = if magnitude <= 5 {
        magnitude as usize
    } else {
        5
    };

    let final_byte: u8 = if delta > 0 {
        0x41
    } else {
        0x42
    };
    let prefix: u8 = if mode.app_cursor {
        0x4f
    } else {
        0x5b
    };

    let mut result: Vec<u8> = Vec::new();
    let mut i: usize = 0;
    while i < count
        invariant
            i <= count,
            result@ == spec_repeated(spec_scroll_arrow(delta, mode), i as nat),
            spec_scroll_arrow(delta, mode) == seq![0x1bu8, prefix, final_byte],
        decreases count - i,
    {
        result.push(0x1b);
        result.push(prefix);
        result.push(final_byte);
        proof {
            assert(result@ =~= spec_repeated(spec_scroll_arrow(delta, mode), (i + 1) as nat));
        }
        i = i + 1;
    }
    result
}

/// Repeating a sequence `count` times gives `count` times its length.
pub proof fn lemma_repeated_len(s: Seq<u8>, count: nat)
    ensures
        spec_repeated(s, count).len() == count * s.len(),
    decreases count,
{
    let len = s.len();
    if count == 0 {
        assert(spec_repeated(s, 0).len() == 0);
    } else {
        lemma_repeated_len(s, (count - 1) as nat);
        assert(spec_repeated(s, count) == spec_repeated(s, (count - 1) as nat) + s);
        assert(count * len == (count - 1) * len + len) by (nonlinear_arith);
    }
}

/// On the alternate screen without any mouse reporting mode, a scroll of
/// `delta` lines becomes exactly `min(|delta|, 5)` copies of the three-byte
/// arrow sequence: arrow up for an upward scroll, arrow down for a downward
/// one.
pub proof fn lemma_scroll_fallback_repetitions(
    delta: i32,
    point: CellPoint,
    modifiers: u8,
    mode: TermMode,
)
    requires
        !mode.spec_any_mouse(),
        mode.alt_screen,
    ensures
        spec_scroll_report(delta, point, modifiers, mode) == Some(
            spec_repeated(spec_scroll_arrow(delta, mode), spec_scroll_arrow_count(delta)),
        ),
        spec_scroll_arrow_count(delta) == if -5 <= delta <= 5 {
            if delta >= 0 {
                delta as nat
            } else {
                (-delta) as nat
            }
        } else {
            5nat
        },
        spec_scroll_report(delta, point, modifiers, mode)->Some_0.len() == 3
            * spec_scroll_arrow_count(delta),
{
    assert(spec_scroll_arrow(delta, mode).len() == 3);
    lemma_repeated_len(spec_scroll_arrow(delta, mode), spec_scroll_arrow_count(delta));
}

/// The bytes a scroll wheel event produces. With a mouse reporting mode on,
/// an SGR wheel report: button 64 scrolling up, 65 scrolling down, always a
/// press. On the alternate screen without mouse reporting, up to five arrow
/// presses. Otherwise nothing: the host handles the scroll as scrollback.
pub open spec fn spec_scroll_report(
    delta: i32,
    point: CellPoint,
    modifiers: u8,
    mode: TermMode,
) -> Option<Seq<u8>> {
    if mode.spec_any_mouse() {
        let code: u8 = if delta > 0 {
            64u8
        } else {
            65u8
        };
        Some(spec_sgr_report(code | modifiers, point.column + 1, point.line + 1, 0x4du8))
    } else if mode.alt_screen {
        Some(spec_repeated(spec_scroll_arrow(delta, mode), spec_scroll_arrow_count(delta)))
    } else {
        None
    }
}

/// Generate a scroll wheel report.
///
/// Returns `None` exactly when neither a mouse reporting mode nor the
/// alternate screen is active.
pub fn scroll_report(delta: i32, point: CellPoint, modifiers: u8, mode: TermMode) -> (r: Option<
    Vec<u8>,
>)
    requires
        delta != i32::MIN,
        point.line < i32::MAX,
        point.column < usize::MAX,
    ensures
        r matches Some(v) ==> spec_scroll_report(delta, point, modifiers, mode) == Some(v@),
        r is None ==> spec_scroll_report(delta, point, modifiers, mode) is None,
{
    if mode.any_mouse_mode() {
        // Wheel events are always reported as presses.
        let code: u8 = if delta > 0 {
            64
        } else {
            65
        };
        let button_value = code | modifiers;
        let col = (point.column as u64) + 1;
        let row = (point.line as i64) + 1;
        return Some(sgr_report(button_value, col, row, 0x4d));
    }
    if mode.alt_screen {
        return Some(scroll_to_arrow_keys(delta, mode));
    }
    None
}

} // verus!
