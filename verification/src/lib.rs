//! Pane-state synchronization layer of a terminal multiplexer.
//!
//! A renderer addresses every pane through one capability interface and never
//! learns whether the pane is driven by a locally spawned process or mirrored
//! from a remote multiplexing session.  The library models the screen buffer,
//! its stable row addressing and change tracking, and the reconciliation
//! policy that fetches missing scrollback from the remote session and splices
//! it into the local mirror.
//!
//! Every state change is one call on an exclusively borrowed pane, and every
//! such call's contract describes the complete before and after states; in
//! particular a history splice is a single mutation, so a reader scheduled
//! around it observes the buffer wholly before or wholly after the splice.
//! The embedding process serializes calls (for example behind a lock) and
//! performs all I/O; the library decides and never blocks.

use vstd::prelude::*;

pub mod changeset;
pub mod localpane;
pub mod pane;
pub mod screen;
pub mod tmux_pane;

verus! {

/// Process-wide unique identifier of a pane.
pub type PaneId = usize;

/// Identifies the backend (local spawner or remote connection) owning a pane.
pub type DomainId = usize;

/// Row coordinate that stays valid as the buffer scrolls.
pub type StableRowIndex = isize;

/// Monotonically non-decreasing modification counter of a screen.
pub type SequenceNo = usize;

/// Failure conditions surfaced by pane operations.
#[derive(Clone, Copy, Debug, PartialEq, Eq, Structural)]
pub enum PaneError {
    /// The operation was attempted after the pane was torn down.
    PaneClosed,
    /// The input sink is closed or broken.
    ChannelWriteFailed,
    /// A history fetch exceeded its bounded number of attempts.
    FetchTimeout,
    /// The requested range is permanently beyond the retained history.
    FetchUnavailable,
}

/// Size of the viewport as negotiated with the backing pty.
#[derive(Clone, Copy, Debug, PartialEq, Eq, Structural)]
pub struct PtySize {
    /// Rows of the viewport.
    pub rows: u16,
    /// Columns of the viewport.
    pub cols: u16,
    /// Width in pixels, if known.
    pub pixel_width: u16,
    /// Height in pixels, if known.
    pub pixel_height: u16,
}

/// Modifier keys held during an input event, as a bitmask.
#[derive(Clone, Copy, Debug, PartialEq, Eq, Structural)]
pub struct KeyModifiers {
    /// One bit per modifier key.
    pub bits: u8,
}

/// A pressed or released key, as far as this layer needs to tell them apart;
/// turning a key into bytes on the wire is the terminal emulator's job.
#[derive(Clone, Copy, Debug, PartialEq, Eq, Structural)]
pub enum KeyCode {
    /// A printable character.
    Char(char),
    /// The enter key.
    Enter,
    /// The tab key.
    Tab,
    /// The escape key.
    Escape,
    /// The backspace key.
    Backspace,
    /// The up arrow.
    UpArrow,
    /// The down arrow.
    DownArrow,
    /// The left arrow.
    LeftArrow,
    /// The right arrow.
    RightArrow,
    /// The page-up key.
    PageUp,
    /// The page-down key.
    PageDown,
    /// The home key.
    Home,
    /// The end key.
    End,
    /// A numbered function key.
    Function(u8),
}

/// What a mouse event reports.
#[derive(Clone, Copy, Debug, PartialEq, Eq, Structural)]
pub enum MouseEventKind {
    /// The pointer moved.
    Move,
    /// A button was pressed.
    Press,
    /// A button was released.
    Release,
}

/// A mouse event aimed at a pane.
#[derive(Clone, Copy, Debug, PartialEq, Eq, Structural)]
pub struct MouseEvent {
    /// What happened.
    pub kind: MouseEventKind,
    /// Column of the pointer.
    pub x: usize,
    /// Stable row of the pointer.
    pub y: StableRowIndex,
    /// Button number, zero if none.
    pub button: u8,
    /// Modifier keys held.
    pub modifiers: KeyModifiers,
}

/// An input event queued for the terminal emulator to encode and forward.
pub enum InputEvent {
    /// A key was pressed.
    KeyDown(KeyCode, KeyModifiers),
    /// A key was released.
    KeyUp(KeyCode, KeyModifiers),
    /// The mouse acted on the pane.
    Mouse(MouseEvent),
    /// Text pasted into the pane.
    Paste(String),
}

/// One color channel triple.
#[derive(Clone, Copy, Debug, PartialEq, Eq, Structural)]
pub struct RgbColor {
    /// Red channel.
    pub red: u8,
    /// Green channel.
    pub green: u8,
    /// Blue channel.
    pub blue: u8,
}

/// The pane's color palette, as far as this layer carries it; theme
/// management is an external collaborator.
#[derive(Clone, Copy, Debug, PartialEq, Eq, Structural)]
pub struct ColorPalette {
    /// Default foreground color.
    pub foreground: RgbColor,
    /// Default background color.
    pub background: RgbColor,
}

} // verus!
