//! Key events as the navigation engine reads them.

use vstd::prelude::*;

verus! {

/// The key that was pressed.
#[derive(Clone, Copy, Debug, PartialEq, Eq, Structural)]
pub enum KeyCode {
    Backspace,
    Enter,
    Left,
    Right,
    Up,
    Down,
    PageUp,
    PageDown,
    Tab,
    BackTab,
    Esc,
    /// A character key.
    Char(char),
    /// Any key that no binding reads.
    Other,
}

/// The modifier keys held down with a key.
#[derive(Clone, Copy, Debug, PartialEq, Eq, Structural)]
pub struct KeyModifiers {
    pub control: bool,
    pub shift: bool,
    pub alt: bool,
}

/// What happened to the key.
#[derive(Clone, Copy, Debug, PartialEq, Eq, Structural)]
pub enum KeyEventKind {
    Press,
    Repeat,
    Release,
}

/// One keyboard event.
#[derive(Clone, Copy, Debug, PartialEq, Eq, Structural)]
pub struct KeyEvent {
    pub code: KeyCode,
    pub modifiers: KeyModifiers,
    pub kind: KeyEventKind,
}

/// One terminal event.
#[derive(Clone, Copy, Debug, PartialEq, Eq, Structural)]
pub enum Event {
    Key(KeyEvent),
    /// Focus, mouse, paste and resize events, none of which is handled.
    Other,
}

impl KeyEvent {
    /// Whether this is the combination that ends the session: Ctrl with `x`.
    pub open spec fn is_quit_spec(&self) -> bool {
        self.modifiers.control && (self.code == KeyCode::Char('x') || self.code == KeyCode::Char(
            'X',
        ))
    }

    /// Whether this is the combination that ends the session: Ctrl with `x`.
    #[verifier::when_used_as_spec(is_quit_spec)]
    pub fn is_quit(&self) -> (r: bool)
        ensures
            r == self.is_quit_spec(),
    {
        self.modifiers.control && match self.code {
            KeyCode::Char(c) => c == 'x' || c == 'X',
            _ => false,
        }
    }
}

} // verus!
