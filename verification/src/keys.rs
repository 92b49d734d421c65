//! Key presses as the dashboard reads them: the key and whether Control was held.

use vstd::prelude::*;

verus! {

/// Which key was pressed.
#[derive(Debug, Clone, Copy, PartialEq, Eq, Structural)]
pub enum KeyCode {
    Char(char),
    Esc,
    Enter,
    Tab,
    Backspace,
    Up,
    Down,
    Left,
    Right,
    /// Any other key (function keys, paging, …), which no screen binds.
    Other,
}

/// A key press.
#[derive(Debug, Clone, Copy, PartialEq, Eq, Structural)]
pub struct Key {
    pub code: KeyCode,
    /// Whether the Control modifier was held.
    pub ctrl: bool,
}

impl Key {
    /// A press of `code` without Control.
    pub fn plain(code: KeyCode) -> (k: Key)
        ensures
            k.code == code,
            !k.ctrl,
    {
        Key { code, ctrl: false }
    }

    /// Whether this is Ctrl-C, which quits from any screen.
    pub fn is_interrupt(&self) -> (b: bool)
        ensures
            b == (self.code == KeyCode::Char('c') && self.ctrl),
    {
        match self.code {
            KeyCode::Char(c) => c == 'c' && self.ctrl,
            _ => false,
        }
    }
}

} // verus!
