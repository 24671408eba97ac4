//! Terminal mode flags and grid dimensions.
//!
//! The VTE engine drives the grid itself; this module holds the values the
//! input and render layers read from it: the mode flags that change how
//! input is encoded, and the dimension descriptor used to size the grid.

use vstd::prelude::*;

verus! {

/// The terminal mode flags that affect input encoding and scroll handling.
///
/// `app_cursor` switches arrow keys to their SS3 form; `alt_screen` marks the
/// alternate screen buffer; the three mouse flags enable mouse reporting.
#[derive(Debug, Clone, Copy, PartialEq, Eq, Structural)]
pub struct TermMode {
    /// Application cursor mode (arrow keys use the SS3 form).
    pub app_cursor: bool,
    /// The alternate screen buffer is active.
    pub alt_screen: bool,
    /// Report button presses and releases.
    pub mouse_report_click: bool,
    /// Report mouse motion.
    pub mouse_motion: bool,
    /// Report motion during a drag.
    pub mouse_drag: bool,
}

impl TermMode {
    /// The mode with no flags set.
    pub open spec fn spec_empty() -> TermMode {
        TermMode {
            app_cursor: false,
            alt_screen: false,
            mouse_report_click: false,
            mouse_motion: false,
            mouse_drag: false,
        }
    }

    /// The mode with no flags set.
    pub fn empty() -> (r: TermMode)
        ensures
            r == TermMode::spec_empty(),
    {
        TermMode {
            app_cursor: false,
            alt_screen: false,
            mouse_report_click: false,
            mouse_motion: false,
            mouse_drag: false,
        }
    }

    /// True if any of the mouse reporting flags is set.
    pub open spec fn spec_any_mouse(self) -> bool {
        self.mouse_report_click || self.mouse_motion || self.mouse_drag
    }

    /// True if any of the mouse reporting flags is set.
    pub fn any_mouse_mode(&self) -> (r: bool)
        ensures
            r == self.spec_any_mouse(),
    {
        self.mouse_report_click || self.mouse_motion || self.mouse_drag
    }
}

/// Grid dimensions handed to the VTE engine when it is built or resized.
///
/// On construction the visible screen is the whole grid, so the total line
/// count equals the screen line count; scrollback is managed by the engine
/// afterwards.
#[derive(Debug, Clone, Copy, PartialEq, Eq, Structural)]
pub struct TermDimensions {
    /// Number of columns.
    pub columns: usize,
    /// Number of visible lines.
    pub screen_lines: usize,
}

impl TermDimensions {
    pub fn new(columns: usize, screen_lines: usize) -> (r: Self)
        ensures
            r == (TermDimensions { columns, screen_lines }),
    {
        Self { columns, screen_lines }
    }

    /// Total lines of the grid: on initialization, the screen lines alone.
    pub fn total_lines(&self) -> (r: usize)
        ensures
            r == self.screen_lines,
    {
        self.screen_lines
    }

    /// Number of visible lines.
    pub fn screen_lines(&self) -> (r: usize)
        ensures
            r == self.screen_lines,
    {
        self.screen_lines
    }

    /// Number of columns.
    pub fn columns(&self) -> (r: usize)
        ensures
            r == self.columns,
    {
        self.columns
    }

    /// Index of the last column: one less than the column count, and zero for
    /// an empty grid.
    pub fn last_column(&self) -> (r: usize)
        ensures
            r == if self.columns > 0 {
                self.columns - 1
            } else {
                0
            },
    {
        if self.columns > 0 {
            self.columns - 1
        } else {
            0
        }
    }
}

} // verus!
