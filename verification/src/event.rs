//! Events: what the multiplexer hands to the update loop.

use vstd::prelude::*;

verus! {

/// The key that a key notification reports.
#[derive(Clone, Copy, Debug, PartialEq, Eq, Structural)]
pub enum KeyCode {
    Backspace,
    Enter,
    Left,
    Right,
    Up,
    Down,
    Home,
    End,
    PageUp,
    PageDown,
    Tab,
    BackTab,
    Delete,
    Insert,
    /// A function key, by its number.
    F(u8),
    /// A character key.
    Char(char),
    Null,
    Esc,
    /// A lock, media or modifier key, which nothing here tells apart.
    Other,
}

/// Whether a key went down, is held, or came up.
#[derive(Clone, Copy, Debug, PartialEq, Eq, Structural)]
pub enum KeyEventKind {
    Press,
    Repeat,
    Release,
}

/// One key notification: the key, the modifier bits held with it, and its
/// kind.
#[derive(Clone, Copy, Debug, PartialEq, Eq, Structural)]
pub struct KeyEvent {
    pub code: KeyCode,
    /// Modifier bits: shift 1, control 2, alt 4, super 8, hyper 16, meta 32.
    pub modifiers: u8,
    pub kind: KeyEventKind,
}

impl KeyEvent {
    /// A press of `code` with no modifier held.
    pub fn press(code: KeyCode) -> (key: KeyEvent)
        ensures
            key == (KeyEvent { code, modifiers: 0, kind: KeyEventKind::Press }),
    {
        KeyEvent { code, modifiers: 0, kind: KeyEventKind::Press }
    }
}

#[derive(Clone, Copy, Debug, PartialEq, Eq, Structural)]
pub enum MouseButton {
    Left,
    Right,
    Middle,
}

#[derive(Clone, Copy, Debug, PartialEq, Eq, Structural)]
pub enum MouseEventKind {
    Down(MouseButton),
    Up(MouseButton),
    Drag(MouseButton),
    Moved,
    ScrollDown,
    ScrollUp,
    ScrollLeft,
    ScrollRight,
}

/// One mouse notification, with the cell it happened in.
#[derive(Clone, Copy, Debug, PartialEq, Eq, Structural)]
pub struct MouseEvent {
    pub kind: MouseEventKind,
    pub column: u16,
    pub row: u16,
    pub modifiers: u8,
}

/// A notification on its way to the update loop.
#[derive(Clone, Debug, PartialEq, Eq)]
pub enum Event {
    Init,
    Quit,
    /// The input source failed to read; the loop goes on.
    Error,
    Closed,
    /// The tick timer elapsed.
    Tick,
    /// The render timer elapsed.
    Render,
    FocusGained,
    FocusLost,
    Paste(String),
    Key(KeyEvent),
    Mouse(MouseEvent),
    Resize(u16, u16),
}

} // verus!
