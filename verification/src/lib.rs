//! The core of a small terminal text editor: lines of text with their
//! tab-expanded rendering and syntax classes, the document editing
//! operations, viewport scrolling, incremental search, and the decisions
//! that turn key events into edits and a frame into paint commands.

use vstd::prelude::*;

pub mod control;
pub mod editor;
pub mod editor_syntax;
pub mod keyboard;
pub mod output;
pub mod row;
pub mod screen;
pub mod text;

verus! {

/// A place in the document: `x` is a character index within a line, `y` a
/// line index. Both are zero-based.
#[derive(Clone, Copy, Debug, PartialEq, Eq, Structural)]
pub struct Position {
    pub x: usize,
    pub y: usize,
}

impl Default for Position {
    fn default() -> (p: Position)
        ensures
            p.x == 0,
            p.y == 0,
    {
        Position { x: 0, y: 0 }
    }
}

/// What can go wrong while waiting for input.
#[derive(Clone, Copy, Debug, PartialEq, Eq, Structural)]
pub enum EditorResult {
    KeyReadFail,
}

} // verus!
