//! Key presses as the session sees them.
//!
//! A terminal reports far more than the session ever looks at. These types
//! hold what the routing rules read: which key it was, whether it went down or
//! up, and whether Control was held.

use vstd::prelude::*;

verus! {

/// The key that was struck.
#[derive(Clone, Copy, Debug, PartialEq, Eq, Structural)]
pub enum KeyCode {
    Char(char),
    Enter,
    Esc,
    Tab,
    Left,
    Right,
    Up,
    Down,
    /// Any key that no rule of the session names.
    Other,
}

/// Whether the key went down, is held, or came up.
#[derive(Clone, Copy, Debug, PartialEq, Eq, Structural)]
pub enum KeyEventKind {
    Press,
    Repeat,
    Release,
}

/// One key event.
#[derive(Clone, Copy, Debug, PartialEq, Eq, Structural)]
pub struct KeyEvent {
    pub code: KeyCode,
    pub kind: KeyEventKind,
    /// Control was held.
    pub ctrl: bool,
}

impl KeyEvent {
    /// A quit key is `q`, or `c` with Control, going down.
    pub open spec fn quits(self) -> bool {
        &&& self.kind == KeyEventKind::Press
        &&& (self.code == KeyCode::Char('q') || (self.code == KeyCode::Char('c') && self.ctrl))
    }

    /// The key that dismisses a warning is Escape, going down.
    pub open spec fn dismisses(self) -> bool {
        self.kind == KeyEventKind::Press && self.code == KeyCode::Esc
    }

    /// A plain press of `code`, without Control.
    pub open spec fn press_of(code: KeyCode) -> KeyEvent {
        KeyEvent { code, kind: KeyEventKind::Press, ctrl: false }
    }

    /// A plain press of `code`, without Control.
    pub fn press(code: KeyCode) -> (key: KeyEvent)
        ensures
            key == KeyEvent::press_of(code),
    {
        KeyEvent { code, kind: KeyEventKind::Press, ctrl: false }
    }

    pub fn is_press(&self) -> (b: bool)
        ensures
            b == (self.kind == KeyEventKind::Press),
    {
        self.kind == KeyEventKind::Press
    }

    pub fn is_quit(&self) -> (b: bool)
        ensures
            b == self.quits(),
    {
        self.kind == KeyEventKind::Press && match self.code {
            KeyCode::Char(c) => c == 'q' || (c == 'c' && self.ctrl),
            _ => false,
        }
    }

    pub fn is_dismiss(&self) -> (b: bool)
        ensures
            b == self.dismisses(),
    {
        self.kind == KeyEventKind::Press && self.code == KeyCode::Esc
    }
}

} // verus!
