//! Keystrokes as the state machine sees them.

use vstd::prelude::*;

verus! {

/// Which key was pressed.
#[derive(Debug, Clone, Copy, PartialEq, Eq, Structural)]
pub enum KeyCode {
    /// A key that produces a character.
    Char(char),
    Backspace,
    Enter,
    Esc,
    Up,
    Down,
    /// Any key the state machine has no rule for.
    Other,
}

/// One keystroke: the key and whether Control was held with it. Rules are
/// picked by the key; Control matters to one of them only, the chord with
/// `c` that asks to quit.
#[derive(Debug, Clone, Copy, PartialEq, Eq, Structural)]
pub struct KeyEvent {
    pub code: KeyCode,
    pub ctrl: bool,
}

impl KeyEvent {
    /// Whether this keystroke is Control held with the character `c`.
    pub open spec fn is_chord(self, c: char) -> bool {
        self.ctrl && self.code == KeyCode::Char(c)
    }

    /// A key pressed on its own.
    pub fn plain(code: KeyCode) -> (key: KeyEvent)
        ensures
            key == (KeyEvent { code, ctrl: false }),
    {
        KeyEvent { code, ctrl: false }
    }

    /// The character key `c` pressed on its own.
    pub fn character(c: char) -> (key: KeyEvent)
        ensures
            key == (KeyEvent { code: KeyCode::Char(c), ctrl: false }),
    {
        KeyEvent { code: KeyCode::Char(c), ctrl: false }
    }

    /// The character key `c` pressed with Control held.
    pub fn control(c: char) -> (key: KeyEvent)
        ensures
            key == (KeyEvent { code: KeyCode::Char(c), ctrl: true }),
            key.is_chord(c),
    {
        KeyEvent { code: KeyCode::Char(c), ctrl: true }
    }
}

} // verus!
