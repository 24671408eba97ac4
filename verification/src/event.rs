//! Event translation.
//!
//! The VTE engine reports a broad set of events; the host application cares
//! about a narrow, typed subset. [`translate_event`] maps each engine event
//! either to the [`TerminalEvent`] the host receives or to nothing, for the
//! events the bridge drops. The contract states the mapping exactly: an
//! engine event that carries information for the host (wakeup, bell, title,
//! clipboard, exit) is never dropped by the translation.

use vstd::prelude::*;

verus! {

/// Events emitted by the terminal that the host application cares about.
#[derive(Debug, Clone, PartialEq, Eq)]
pub enum TerminalEvent {
    /// The terminal has new content to display and needs a redraw.
    Wakeup,
    /// The terminal bell was triggered (visual or audible alert).
    Bell,
    /// The terminal title has changed.
    Title(String),
    /// The terminal wants to store data to the clipboard.
    ClipboardStore(String),
    /// The terminal wants to load data from the clipboard.
    ClipboardLoad,
    /// The terminal process has exited.
    Exit,
}

/// The events the VTE engine emits, as the bridge sees them: the payloads
/// the translation reads are kept, the rest (clipboard kinds, formatter
/// callbacks, exit statuses) are already stripped away.
#[derive(Debug, Clone, PartialEq, Eq)]
pub enum EngineEvent {
    /// The grid changed in a way that may need a new mouse cursor shape.
    MouseCursorDirty,
    /// Window title change.
    Title(String),
    /// Reset to the default window title.
    ResetTitle,
    /// Request to store a text string in the clipboard.
    ClipboardStore(String),
    /// Request to write the contents of the clipboard to the PTY.
    ClipboardLoad,
    /// Request to write the RGB value of a color to the PTY.
    ColorRequest,
    /// Write some text to the PTY.
    PtyWrite(String),
    /// Request to write the text area size.
    TextAreaSizeRequest,
    /// Cursor blinking state has changed.
    CursorBlinkingChange,
    /// New terminal content available.
    Wakeup,
    /// Terminal bell ring.
    Bell,
    /// Shutdown request.
    Exit,
    /// Child process exited.
    ChildExit,
}

/// What the bridge makes of each engine event. A title reset becomes an
/// empty title; a clipboard store keeps its payload; both exit forms become
/// one exit event; the engine's bookkeeping events are dropped.
pub open spec fn spec_translation(event: EngineEvent, r: Option<TerminalEvent>) -> bool {
    match event {
        EngineEvent::Wakeup => r == Some(TerminalEvent::Wakeup),
        EngineEvent::Bell => r == Some(TerminalEvent::Bell),
        EngineEvent::Title(title) => r matches Some(TerminalEvent::Title(t)) && t == title,
        EngineEvent::ResetTitle => r matches Some(TerminalEvent::Title(t)) && t@
            == Seq::<char>::empty(),
        EngineEvent::ClipboardStore(data) => r matches Some(TerminalEvent::ClipboardStore(d)) && d
            == data,
        EngineEvent::ClipboardLoad => r == Some(TerminalEvent::ClipboardLoad),
        EngineEvent::Exit => r == Some(TerminalEvent::Exit),
        EngineEvent::ChildExit => r == Some(TerminalEvent::Exit),
        EngineEvent::MouseCursorDirty => r is None,
        EngineEvent::PtyWrite(_) => r is None,
        EngineEvent::ColorRequest => r is None,
        EngineEvent::TextAreaSizeRequest => r is None,
        EngineEvent::CursorBlinkingChange => r is None,
    }
}

/// Translates an engine event to the event the host receives, or to nothing
/// for the events the bridge drops.
pub fn translate_event(event: EngineEvent) -> (r: Option<TerminalEvent>)
    ensures
        spec_translation(event, r),
{
    match event {
        EngineEvent::Wakeup => Some(TerminalEvent::Wakeup),
        EngineEvent::Bell => Some(TerminalEvent::Bell),
        EngineEvent::Title(title) => Some(TerminalEvent::Title(title)),
        EngineEvent::ResetTitle => {
            // Reset title to default: an empty title.
            Some(TerminalEvent::Title(String::new()))
        },
        EngineEvent::ClipboardStore(data) => {
            // The clipboard kind was already discarded; only the data counts.
            Some(TerminalEvent::ClipboardStore(data))
        },
        EngineEvent::ClipboardLoad => Some(TerminalEvent::ClipboardLoad),
        EngineEvent::Exit => Some(TerminalEvent::Exit),
        EngineEvent::ChildExit => {
            // A child exit is surfaced like any other termination.
            Some(TerminalEvent::Exit)
        },
        // The remaining events are handled inside the engine or not needed.
        EngineEvent::MouseCursorDirty => None,
        EngineEvent::PtyWrite(_) => None,
        EngineEvent::ColorRequest => None,
        EngineEvent::TextAreaSizeRequest => None,
        EngineEvent::CursorBlinkingChange => None,
    }
}

/// The translation never drops an event the host listens for: every wakeup,
/// bell, title (reset included), clipboard and exit event maps to a terminal
/// event. Whether the host then receives it depends only on the channel
/// between bridge and host staying open.
pub proof fn lemma_translation_is_lossless(event: EngineEvent, r: Option<TerminalEvent>)
    requires
        spec_translation(event, r),
        event is Wakeup || event is Bell || event is Title || event is ResetTitle
            || event is ClipboardStore || event is ClipboardLoad || event is Exit
            || event is ChildExit,
    ensures
        r is Some,
{
}

} // verus!
