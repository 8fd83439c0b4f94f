//! Painting a screen that shows no document.

use vstd::prelude::*;
use crate::screen::DrawCommand;

verus! {

/// The rows of the screen that shows no document.
pub const BLANK_ROWS: usize = 24;

/// The steps that put a tilde at the start of each of the first `upto`
/// rows, from the top down.
pub open spec fn tilde_rows(upto: nat) -> Seq<DrawCommand>
    decreases upto,
{
    if upto == 0 {
        Seq::empty()
    } else {
        tilde_rows((upto - 1) as nat) + seq![
            DrawCommand::MoveTo(0, (upto - 1) as usize),
            DrawCommand::Print('~'),
        ]
    }
}

/// The steps that put a tilde at the start of every row.
pub fn editor_draw_row() -> (out: Vec<DrawCommand>)
    ensures
        out@ == tilde_rows(BLANK_ROWS as nat),
{
    let mut out: Vec<DrawCommand> = Vec::new();
    let mut row: usize = 0;
    while row < BLANK_ROWS
        invariant
            row <= BLANK_ROWS,
            out@ == tilde_rows(row as nat),
        decreases BLANK_ROWS - row,
    {
        let ghost before = out@;
        out.push(DrawCommand::MoveTo(0, row));
        out.push(DrawCommand::Print('~'));
        assert(out@ =~= before + seq![DrawCommand::MoveTo(0, row), DrawCommand::Print('~')]);
        row += 1;
    }
    out
}

/// The steps that wipe the terminal and go to its top left corner.
pub fn clear_screeen() -> (out: Vec<DrawCommand>)
    ensures
        out@ == seq![DrawCommand::Clear, DrawCommand::MoveTo(0, 0)],
{
    let mut out: Vec<DrawCommand> = Vec::new();
    out.push(DrawCommand::Clear);
    out.push(DrawCommand::MoveTo(0, 0));
    assert(out@ =~= seq![DrawCommand::Clear, DrawCommand::MoveTo(0, 0)]);
    out
}

/// The steps that paint the screen that shows no document: the terminal is
/// wiped, every row gets its tilde, and the cursor goes to the top left
/// corner.
pub fn editor_refresh_screen() -> (out: Vec<DrawCommand>)
    ensures
        out@ == seq![DrawCommand::Clear, DrawCommand::MoveTo(0, 0)] + tilde_rows(BLANK_ROWS as nat)
            + seq![DrawCommand::MoveTo(0, 0)],
{
    let mut out = clear_screeen();
    let mut rows = editor_draw_row();
    out.append(&mut rows);
    out.push(DrawCommand::MoveTo(0, 0));
    out
}

} // verus!
