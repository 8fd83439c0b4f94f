//! The text area of the terminal, and what is painted into it.

use vstd::prelude::*;
use crate::Position;
use crate::row::{Color, Highlight, Row, RowView, colour_of};
use crate::text::str_chars;

verus! {

/// One step of painting the terminal.
#[derive(Clone, Copy, Debug, PartialEq, Eq, Structural)]
pub enum DrawCommand {
    /// Wipe the whole terminal.
    Clear,
    /// Go to a column and a row, both counted from 0.
    MoveTo(usize, usize),
    /// Write a character and go one column on.
    Print(char),
    /// Write in this colour from now on.
    SetForeground(Color),
    /// Swap foreground and background from now on.
    Reverse,
    /// Write without any attribute from now on.
    ResetAttributes,
}

/// The greeting shown in an empty document.
pub const WELCOME: &'static str = "Kilo Editor -- version 0.1.0";

/// The control characters of ASCII.
pub open spec fn control(c: char) -> bool {
    (c as u32) < 32 || c as u32 == 127
}

/// The letter that Control makes the control character `c` with, for the
/// characters up to that of `Z`; for the first of them it is `@`.
pub open spec fn control_letter(c: char) -> char {
    (c as u32 + 64) as char
}

/// What is shown for a control character: a caret and the letter that
/// Control makes it with, or `?` for those that have no such letter.
pub open spec fn glyph(c: char) -> Seq<char> {
    if c as u32 <= 26 {
        seq!['^', control_letter(c)]
    } else {
        seq!['?']
    }
}

/// The colour in force after a character of class `h` is painted while
/// `colour` is in force: a control character leaves it as it is.
pub open spec fn colour_after(c: char, h: Highlight, colour: Color) -> Color {
    if control(c) {
        colour
    } else {
        colour_of(h)
    }
}

/// The steps that paint one character of class `h` while `colour` is in
/// force. A control character is shown as its glyph in reverse video, after
/// which the colour is set again; any other character is written in the
/// colour of its class, which is set only where it is not in force.
///
/// The glyph with a caret takes two cells on the terminal, while the
/// rendering counts one column for every character but a tab: what
/// follows such a character on its line is shown one cell further right
/// than its column says.
pub open spec fn cell_commands(c: char, h: Highlight, colour: Color) -> Seq<DrawCommand> {
    if control(c) {
        seq![DrawCommand::Reverse] + printed(glyph(c)) + seq![DrawCommand::ResetAttributes] + (
        if colour != Color::Reset {
            seq![DrawCommand::SetForeground(colour)]
        } else {
            Seq::empty()
        })
    } else if colour != colour_of(h) {
        seq![DrawCommand::SetForeground(colour_of(h)), print_of(c)]
    } else {
        seq![print_of(c)]
    }
}

/// The colour in force before the character of index `to` is painted, the
/// painting having started at index `from` in the default colour.
pub open spec fn colour_before(render: Seq<char>, hl: Seq<Highlight>, from: int, to: int) -> Color
    decreases to - from,
{
    if to <= from {
        Color::Reset
    } else {
        colour_after(render[to - 1], hl[to - 1], colour_before(render, hl, from, to - 1))
    }
}

/// The steps that paint the characters from index `from` up to `to`.
pub open spec fn span_commands(render: Seq<char>, hl: Seq<Highlight>, from: int, to: int) -> Seq<
    DrawCommand,
>
    decreases to - from,
{
    if to <= from {
        Seq::empty()
    } else {
        span_commands(render, hl, from, to - 1) + cell_commands(
            render[to - 1],
            hl[to - 1],
            colour_before(render, hl, from, to - 1),
        )
    }
}

/// The step that writes `c`.
pub open spec fn print_of(c: char) -> DrawCommand {
    DrawCommand::Print(c)
}

/// The steps that write `text`.
pub open spec fn printed(text: Seq<char>) -> Seq<DrawCommand>
    decreases text.len(),
{
    if text.len() == 0 {
        Seq::empty()
    } else {
        printed(text.drop_last()).push(print_of(text.last()))
    }
}

/// `n` spaces.
pub open spec fn spaces(n: nat) -> Seq<char> {
    Seq::new(n, |i: int| ' ')
}

/// `text` cut to `width` characters where it is longer.
pub open spec fn cut(text: Seq<char>, width: nat) -> Seq<char> {
    if text.len() > width {
        text.take(width as int)
    } else {
        text
    }
}

/// `text` in exactly `width` characters: cut where it is longer, followed
/// by spaces where it is shorter.
pub open spec fn fitted(text: Seq<char>, width: nat) -> Seq<char> {
    cut(text, width) + spaces((width - cut(text, width).len()) as nat)
}

/// The status line in exactly `width` characters: `left` at its start, cut
/// where it is longer, and `right` at its end where both have room.
pub open spec fn status_line(left: Seq<char>, right: Seq<char>, width: nat) -> Seq<char> {
    let l = cut(left, width);
    if l.len() + right.len() <= width {
        l + spaces((width - l.len() - right.len()) as nat) + right
    } else {
        fitted(left, width)
    }
}

/// The steps that paint the status bar in reverse video below a text area
/// of `height` rows, and the message below it.
pub open spec fn status_bar_commands(
    left: Seq<char>,
    right: Seq<char>,
    help: Seq<char>,
    width: nat,
    height: nat,
) -> Seq<DrawCommand> {
    seq![DrawCommand::MoveTo(0, height as usize), DrawCommand::Reverse] + printed(
        status_line(left, right, width),
    ) + seq![DrawCommand::MoveTo(0, (height + 1) as usize)] + printed(fitted(help, width))
        + seq![DrawCommand::ResetAttributes]
}

/// The steps that paint a screen row below the document's end: a tilde at
/// its start, and the greeting in its middle where that is asked for.
pub open spec fn filler_commands(row: nat, greet: bool, width: nat) -> Seq<DrawCommand> {
    let text = cut(WELCOME@, width);
    if !greet {
        seq![DrawCommand::MoveTo(0, row as usize), DrawCommand::Print('~')]
    } else if text.len() < width {
        seq![
            DrawCommand::MoveTo(0, row as usize),
            DrawCommand::Print('~'),
            DrawCommand::MoveTo(((width - text.len()) / 2) as usize, row as usize),
        ] + printed(text)
    } else {
        seq![DrawCommand::MoveTo(0, row as usize)] + printed(text)
    }
}

/// The steps that paint a row of the document on screen row `row`: the
/// rendered characters from column `coloff` on, at most as many as the
/// window has columns, and the default colour set at the end. A row that ends before `coloff`
/// is not painted.
pub open spec fn text_commands(line: RowView, row: nat, coloff: nat, width: nat) -> Seq<DrawCommand> {
    if line.render.len() < coloff {
        Seq::empty()
    } else {
        let shown = if line.render.len() - coloff > width { width } else { (line.render.len() - coloff) as nat };
        seq![DrawCommand::MoveTo(0, row as usize)] + span_commands(
            line.render,
            line.hl,
            coloff as int,
            (coloff + shown) as int,
        ) + seq![DrawCommand::SetForeground(Color::Reset)]
    }
}

/// The steps that paint screen row `row`.
pub open spec fn row_commands(
    lines: Seq<RowView>,
    rowoff: nat,
    coloff: nat,
    width: nat,
    height: nat,
    row: nat,
) -> Seq<DrawCommand> {
    if row + rowoff >= lines.len() {
        filler_commands(row, lines.len() == 0 && row == height / 3, width)
    } else {
        text_commands(lines[(row + rowoff) as int], row, coloff, width)
    }
}

/// The steps that paint the first `upto` screen rows, from the top down.
pub open spec fn frame_commands(
    lines: Seq<RowView>,
    rowoff: nat,
    coloff: nat,
    width: nat,
    height: nat,
    upto: nat,
) -> Seq<DrawCommand>
    decreases upto,
{
    if upto == 0 {
        Seq::empty()
    } else {
        frame_commands(lines, rowoff, coloff, width, height, (upto - 1) as nat) + row_commands(
            lines,
            rowoff,
            coloff,
            width,
            height,
            (upto - 1) as nat,
        )
    }
}

/// What the rows hold.
pub open spec fn views_of(rows: Seq<Row>) -> Seq<RowView> {
    Seq::new(rows.len(), |i: int| rows[i]@)
}

/// Adds the steps that write `text`.
fn print_all(out: &mut Vec<DrawCommand>, text: &Vec<char>)
    ensures
        final(out)@ == old(out)@ + printed(text@),
{
    let mut i: usize = 0;
    assert(out@ =~= old(out)@ + printed(text@.take(0)));
    while i < text.len()
        invariant
            i <= text.len(),
            out@ == old(out)@ + printed(text@.take(i as int)),
        decreases text.len() - i,
    {
        let c: char = text[i];
        out.push(DrawCommand::Print(c));
        assert(text@.take(i + 1).drop_last() =~= text@.take(i as int));
        assert(out@ =~= old(out)@ + printed(text@.take(i + 1)));
        i += 1;
    }
    assert(text@.take(text@.len() as int) =~= text@);
}

/// Adds `n` spaces.
fn pad(line: &mut Vec<char>, n: usize)
    ensures
        final(line)@ == old(line)@ + spaces(n as nat),
{
    let mut i: usize = 0;
    assert(line@ =~= old(line)@ + spaces(0));
    while i < n
        invariant
            i <= n,
            line@ == old(line)@ + spaces(i as nat),
        decreases n - i,
    {
        line.push(' ');
        assert(line@ =~= old(line)@ + spaces((i + 1) as nat));
        i += 1;
    }
}

/// The first `width` characters of `text`, or all of them.
fn cut_chars(text: &Vec<char>, width: usize) -> (head: Vec<char>)
    ensures
        head@ == cut(text@, width as nat),
{
    let n: usize = if text.len() > width { width } else { text.len() };
    let mut head: Vec<char> = Vec::new();
    let mut i: usize = 0;
    while i < n
        invariant
            i <= n <= text.len(),
            head@ =~= text@.take(i as int),
        decreases n - i,
    {
        head.push(text[i]);
        i += 1;
    }
    assert(head@ =~= cut(text@, width as nat));
    head
}

/// Tests whether `c` is a control character of ASCII.
fn is_control(c: char) -> (b: bool)
    ensures
        b == control(c),
{
    let code: u32 = c as u32;
    code < 32 || code == 127
}

/// The glyph of a control character.
fn glyph_of(c: char) -> (g: Vec<char>)
    requires
        control(c),
    ensures
        g@ == glyph(c),
{
    let code: u32 = c as u32;
    let mut g: Vec<char> = Vec::new();
    if code <= 26 {
        let letter: char = ((code + 64) as u8) as char;
        g.push('^');
        g.push(letter);
        assert(g@ =~= glyph(c));
    } else {
        g.push('?');
        assert(g@ =~= glyph(c));
    }
    g
}

/// The part of the terminal that shows text: all of its columns, and its
/// rows but the two at the bottom, which hold the status bar and a message.
#[derive(Clone, Copy, Debug, PartialEq, Eq, Structural)]
pub struct Screen {
    pub width: usize,
    pub height: usize,
}

impl Screen {
    /// The text area has at least one column and one row.
    pub open spec fn wf(&self) -> bool {
        1 <= self.width <= 0xFFFF && 1 <= self.height <= 0xFFFD
    }

    /// The text area of a terminal of `width` columns and `height` rows. A
    /// terminal of fewer than three rows has no room for text.
    pub fn new(width: u16, height: u16) -> (screen: Screen)
        requires
            width >= 1,
            height >= 3,
        ensures
            screen.width == width,
            screen.height == height - 2,
            screen.wf(),
    {
        Screen { width: width as usize, height: (height - 2) as usize }
    }

    /// The steps that wipe the terminal and go to its top left corner.
    pub fn clear(&self) -> (out: Vec<DrawCommand>)
        ensures
            out@ == seq![DrawCommand::Clear, DrawCommand::MoveTo(0, 0)],
    {
        let mut out: Vec<DrawCommand> = Vec::new();
        out.push(DrawCommand::Clear);
        out.push(DrawCommand::MoveTo(0, 0));
        assert(out@ =~= seq![DrawCommand::Clear, DrawCommand::MoveTo(0, 0)]);
        out
    }

    /// The step that puts the terminal's cursor where the document's
    /// cursor is shown: at its visual column and its row, both counted
    /// from the window's corner. The cursor must be in the window.
    pub fn move_to(&self, pos: &Position, render_x: usize, rowoff: usize, coloff: usize) -> (step:
        DrawCommand)
        requires
            coloff <= render_x,
            rowoff <= pos.y,
        ensures
            step == DrawCommand::MoveTo((render_x - coloff) as usize, (pos.y - rowoff) as usize),
    {
        DrawCommand::MoveTo(render_x - coloff, pos.y - rowoff)
    }

    /// The steps that paint the text area: for every screen row the row of
    /// the document that `rowoff` brings there, from column `coloff` on,
    /// and below the document's end a tilde, with the greeting a third
    /// down the screen where the document is empty.
    pub fn draw_row(&self, rows: &Vec<Row>, rowoff: usize, coloff: usize) -> (out: Vec<DrawCommand>)
        requires
            forall|i: int| 0 <= i < rows@.len() ==> (#[trigger] rows@[i]).wf(),
        ensures
            out@ == frame_commands(
                views_of(rows@),
                rowoff as nat,
                coloff as nat,
                self.width as nat,
                self.height as nat,
                self.height as nat,
            ),
    {
        let mut out: Vec<DrawCommand> = Vec::new();
        let welcome = str_chars(WELCOME);
        let mut row: usize = 0;
        while row < self.height
            invariant
                row <= self.height,
                welcome@ == WELCOME@,
                forall|i: int| 0 <= i < rows@.len() ==> (#[trigger] rows@[i]).wf(),
                out@ == frame_commands(
                    views_of(rows@),
                    rowoff as nat,
                    coloff as nat,
                    self.width as nat,
                    self.height as nat,
                    row as nat,
                ),
            decreases self.height - row,
        {
            let ghost before = out@;
            if rowoff >= rows.len() || row >= rows.len() - rowoff {
                if rows.len() == 0 && row == self.height / 3 {
                    let text = cut_chars(&welcome, self.width);
                    if text.len() < self.width {
                        out.push(DrawCommand::MoveTo(0, row));
                        out.push(DrawCommand::Print('~'));
                        out.push(DrawCommand::MoveTo((self.width - text.len()) / 2, row));
                    } else {
                        out.push(DrawCommand::MoveTo(0, row));
                    }
                    print_all(&mut out, &text);
                } else {
                    out.push(DrawCommand::MoveTo(0, row));
                    out.push(DrawCommand::Print('~'));
                }
                assert(out@ =~= before + filler_commands(
                    row as nat,
                    rows@.len() == 0 && row == self.height / 3,
                    self.width as nat,
                ));
            } else {
                let line = &rows[row + rowoff];
                let len: usize = line.render_len();
                if len >= coloff {
                    let shown: usize = if len - coloff > self.width { self.width } else { len - coloff };
                    let end: usize = coloff + shown;
                    out.push(DrawCommand::MoveTo(0, row));
                    let ghost base = out@;
                    let mut colour = Color::Reset;
                    let mut j: usize = coloff;
                    while j < end
                        invariant
                            coloff <= j <= end <= line.render.len(),
                            line.hl.len() == line.render.len(),
                            colour == colour_before(line.render@, line.hl@, coloff as int, j as int),
                            out@ == base + span_commands(line.render@, line.hl@, coloff as int, j as int),
                        decreases end - j,
                    {
                        let c: char = line.render[j];
                        let h: Highlight = line.hl[j];
                        let ghost sofar = out@;
                        let ghost was = colour;
                        if is_control(c) {
                            out.push(DrawCommand::Reverse);
                            let g = glyph_of(c);
                            print_all(&mut out, &g);
                            out.push(DrawCommand::ResetAttributes);
                            if colour != Color::Reset {
                                out.push(DrawCommand::SetForeground(colour));
                            }
                            assert(out@ =~= sofar + cell_commands(c, h, was));
                        } else {
                            let wanted = h.syntax_to_color();
                            if colour != wanted {
                                out.push(DrawCommand::SetForeground(wanted));
                                colour = wanted;
                            }
                            out.push(DrawCommand::Print(c));
                            assert(out@ =~= sofar + cell_commands(c, h, was));
                        }
                        j += 1;
                    }
                    out.push(DrawCommand::SetForeground(Color::Reset));
                    assert(out@ =~= before + text_commands(
                        line@,
                        row as nat,
                        coloff as nat,
                        self.width as nat,
                    ));
                } else {
                    assert(out@ =~= before + text_commands(
                        line@,
                        row as nat,
                        coloff as nat,
                        self.width as nat,
                    ));
                }
            }
            row += 1;
        }
        out
    }

    /// The steps that paint the status bar and the message below it, each
    /// in exactly as many characters as the terminal is wide.
    pub fn draw_status_bar(&self, left: &str, right: &str, help: &str) -> (out: Vec<DrawCommand>)
        requires
            self.wf(),
        ensures
            out@ == status_bar_commands(
                left@,
                right@,
                help@,
                self.width as nat,
                self.height as nat,
            ),
    {
        let width: usize = self.width;
        let mut line = cut_chars(&str_chars(left), width);
        let right_chars = str_chars(right);
        let room: usize = width - line.len();
        if right_chars.len() <= room {
            pad(&mut line, room - right_chars.len());
            let mut more = right_chars;
            line.append(&mut more);
        } else {
            pad(&mut line, room);
        }
        let mut message = cut_chars(&str_chars(help), width);
        let rest: usize = width - message.len();
        pad(&mut message, rest);
        let mut out: Vec<DrawCommand> = Vec::new();
        out.push(DrawCommand::MoveTo(0, self.height));
        out.push(DrawCommand::Reverse);
        print_all(&mut out, &line);
        out.push(DrawCommand::MoveTo(0, self.height + 1));
        print_all(&mut out, &message);
        out.push(DrawCommand::ResetAttributes);
        assert(out@ =~= status_bar_commands(
            left@,
            right@,
            help@,
            self.width as nat,
            self.height as nat,
        ));
        out
    }

    /// The size of the text area: `x` columns and `y` rows.
    pub fn bounds(&self) -> (size: Position)
        ensures
            size.x == self.width,
            size.y == self.height,
    {
        Position { x: self.width, y: self.height }
    }
}

} // verus!
