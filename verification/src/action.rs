//! The messages that drive the component tree.

use vstd::prelude::*;

verus! {

/// The keys the components distinguish.
#[derive(Clone, Copy, Debug, PartialEq, Eq, Structural)]
pub enum KeyCode {
    Up,
    Down,
    Left,
    Right,
    Enter,
    Backspace,
    Char(char),
    Other,
}

/// One key press: the key and whether Control was held.
#[derive(Clone, Copy, Debug, PartialEq, Eq, Structural)]
pub struct KeyEvent {
    pub code: KeyCode,
    pub ctrl: bool,
}

/// A message broadcast to every live component.
#[derive(Clone, Copy, Debug, PartialEq, Eq, Structural)]
pub enum Action {
    Tick,
    Render,
    Quit,
    Key(KeyEvent),
    Resize(u16, u16),
}

impl KeyEvent {
    /// A key pressed without Control.
    pub fn plain(code: KeyCode) -> (ev: KeyEvent)
        ensures
            ev.code == code,
            !ev.ctrl,
    {
        KeyEvent { code, ctrl: false }
    }

    /// The reserved key that ends the program whatever holds the focus:
    /// Control together with `c`.
    pub open spec fn is_quit(self) -> bool {
        self.ctrl && self.code == KeyCode::Char('c')
    }

    /// Whether this is the reserved quit key.
    pub fn is_quit_key(&self) -> (quit: bool)
        ensures
            quit == self.is_quit(),
    {
        match self.code {
            KeyCode::Char(c) => self.ctrl && c == 'c',
            _ => false,
        }
    }
}

} // verus!
