//! Embeddable terminal-emulator core.
//!
//! The crate covers the engine-side logic of a GUI terminal: the box-drawing
//! segment tables used for programmatic line rendering, the color palette and
//! its resolution rules, the keyboard and mouse input encoders that turn user
//! events into PTY byte sequences, the row-layout batching used while
//! painting, and the typed events the VTE engine's reports become before the
//! host application sees them.

pub mod box_drawing;
pub mod colors;
pub mod event;
pub mod input;
pub mod mouse;
pub mod render;
pub mod terminal;

pub use colors::{ColorPalette, ColorPaletteBuilder};
pub use event::TerminalEvent;
