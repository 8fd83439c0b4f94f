//! Keys as the editor sees them, and the choice of what counts as one.

use vstd::prelude::*;
use crate::EditorResult;

verus! {

/// What a key stands for.
#[derive(Clone, Copy, Debug, PartialEq, Eq, Structural)]
pub enum KeyCode {
    Backspace,
    Enter,
    Left,
    Right,
    Up,
    Down,
    Home,
    End,
    PageUp,
    PageDown,
    Tab,
    Delete,
    Esc,
    Char(char),
    /// Any other key.
    Other,
}

/// What is held down with a key.
#[derive(Clone, Copy, Debug, PartialEq, Eq, Structural)]
pub enum KeyModifiers {
    /// Nothing.
    Plain,
    /// Shift alone.
    Shift,
    /// Control alone.
    Control,
    /// Anything else.
    Other,
}

/// One key press.
#[derive(Clone, Copy, Debug, PartialEq, Eq, Structural)]
pub struct KeyEvent {
    pub code: KeyCode,
    pub modifiers: KeyModifiers,
}

/// What the terminal reports.
#[derive(Clone, Copy, Debug, PartialEq, Eq, Structural)]
pub enum Event {
    /// A key press.
    Key(KeyEvent),
    /// Anything else, such as a resize.
    Other,
}

/// What to do with a report of the terminal.
#[derive(Clone, Copy, Debug, PartialEq, Eq, Structural)]
pub enum KeyRead {
    /// The key that was pressed.
    Key(KeyEvent),
    /// Nothing of interest: read on.
    Again,
    /// Reading failed.
    Failed(EditorResult),
}

/// The source of keys.
#[derive(Clone, Copy, Debug)]
pub struct Keyboard;

impl Keyboard {
    /// Judges what was read from the terminal: a key press is handed on,
    /// any other report is passed over, and a failed read (`None`) is an
    /// error.
    pub fn read_key(&self, read: Option<Event>) -> (answer: KeyRead)
        ensures
            answer == match read {
                Some(Event::Key(key)) => KeyRead::Key(key),
                Some(Event::Other) => KeyRead::Again,
                None => KeyRead::Failed(EditorResult::KeyReadFail),
            },
    {
        match read {
            Some(Event::Key(key)) => KeyRead::Key(key),
            Some(Event::Other) => KeyRead::Again,
            None => KeyRead::Failed(EditorResult::KeyReadFail),
        }
    }
}

} // verus!
