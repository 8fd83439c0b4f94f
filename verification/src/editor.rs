//! The editor: a document of rows with a cursor in it, the window through
//! which it is seen, and the state of a search.

use vstd::prelude::*;
use crate::Position;
use crate::editor_syntax::{EditorSyntax, SyntaxRules, builtin_syntaxes};
use crate::row::{Row, RowView, column_of, highlight_of, index_at, marked, reclassified, rules_of, unmarked};
use crate::screen::{Screen, views_of};
use crate::text::{chars_to_string, find, first_occurrence, push_chars, same_chars, str_chars};

verus! {

/// How often quitting must be asked for again while changes are unsaved.
pub const KILO_QUIT_TIMES: usize = 3;

/// The way a search walks through the rows.
#[derive(Clone, Copy, Debug, PartialEq, Eq, Structural)]
pub enum SearchDirection {
    Forward,
    Backward,
}

/// What a prompt tells the search about a key.
#[derive(Clone, Copy, Debug, PartialEq, Eq, Structural)]
pub enum PromptKey {
    Enter,
    Escape,
    Next,
    Previous,
    Char(char),
}

/// The ways the cursor moves by one step.
#[derive(Clone, Copy, Debug, PartialEq, Eq, Structural)]
pub enum EditorKey {
    Left,
    Right,
    Up,
    Down,
}

/// The editor's state.
#[derive(Debug)]
pub struct Editor {
    /// The name of the file; empty while there is none.
    pub filename: String,
    /// The message shown below the status bar.
    pub status_msg: String,
    /// When the message was set, in milliseconds of the caller's clock.
    pub status_time: u64,
    /// The text area.
    pub screen: Screen,
    /// Where the cursor is in the document.
    pub cursor: Position,
    /// The visual column of the cursor.
    pub render_x: usize,
    /// Whether the document differs from what was loaded or saved last.
    pub dirty: bool,
    /// The lines of the document.
    pub rows: Vec<Row>,
    /// The first row that is shown.
    pub rowoff: usize,
    /// The first visual column that is shown.
    pub coloff: usize,
    /// How often quitting must still be asked for.
    pub quit_time: usize,
    /// The row of the last search hit.
    pub last_match: Option<usize>,
    /// The way the search walks.
    pub direction: SearchDirection,
    /// The row in which a search match is marked.
    pub saved_hl: Option<usize>,
    /// The syntaxes that are known.
    pub hldb: Vec<EditorSyntax>,
    /// The index in `hldb` of the syntax in use.
    pub syntax_ind: Option<usize>,
}

/// The syntax of index `ind`, if there is one.
fn pick(hldb: &Vec<EditorSyntax>, ind: Option<usize>) -> (syntax: Option<&EditorSyntax>)
    ensures
        rules_of(syntax) == rules_in(hldb@, ind),
        match syntax {
            Some(s) => syntax_in(hldb@, ind) == Some(*s),
            None => syntax_in(hldb@, ind) is None,
        },
{
    match ind {
        Some(i) => if i < hldb.len() {
            Some(&hldb[i])
        } else {
            None
        },
        None => None,
    }
}

/// The syntax of index `ind` in `hldb`; none where there is no such syntax.
pub open spec fn syntax_in(hldb: Seq<EditorSyntax>, ind: Option<usize>) -> Option<EditorSyntax> {
    match ind {
        Some(i) => if i < hldb.len() {
            Some(hldb[i as int])
        } else {
            None
        },
        None => None,
    }
}

/// The rules of the syntax of index `ind` in `hldb`; none where there is no
/// such syntax.
pub open spec fn rules_in(hldb: Seq<EditorSyntax>, ind: Option<usize>) -> Option<SyntaxRules> {
    match ind {
        Some(i) => if i < hldb.len() {
            Some(hldb[i as int]@)
        } else {
            None
        },
        None => None,
    }
}

/// The text of `lines`: each line followed by a line end.
pub open spec fn joined(lines: Seq<Seq<char>>) -> Seq<char>
    decreases lines.len(),
{
    if lines.len() == 0 {
        Seq::empty()
    } else {
        joined(lines.drop_last()) + lines.last() + seq!['\n']
    }
}

/// The pieces of `text` between its line ends. There is one piece more than
/// there are line ends, so the text without any is one piece.
pub open spec fn split_text(text: Seq<char>) -> Seq<Seq<char>>
    decreases text.len(),
{
    if text.len() == 0 {
        seq![Seq::empty()]
    } else {
        let before = split_text(text.drop_last());
        if text.last() == '\n' {
            before.push(Seq::empty())
        } else {
            before.drop_last().push(before.last().push(text.last()))
        }
    }
}

/// The lines that a document is loaded with: the pieces given, without the
/// last if it is empty.
pub open spec fn loaded(pieces: Seq<Seq<char>>) -> Seq<Seq<char>> {
    if pieces.len() > 0 && pieces.last().len() == 0 {
        pieces.drop_last()
    } else {
        pieces
    }
}

/// The lines after `c` is typed at `pos`: on the row after the last a new
/// line of that character, else the character put into its line.
pub open spec fn typed(lines: Seq<Seq<char>>, pos: Position, c: char) -> Seq<Seq<char>> {
    if pos.y == lines.len() {
        lines.push(seq![c])
    } else if pos.y < lines.len() {
        lines.update(
            pos.y as int,
            lines[pos.y as int].insert(
                if pos.x < lines[pos.y as int].len() { pos.x as int } else { lines[pos.y as int].len() as int },
                c,
            ),
        )
    } else {
        lines
    }
}

/// Where an offset has to be so that `at` is among the `span` places shown
/// from it: it moves as little as that takes.
pub open spec fn scrolled(off: int, at: int, span: int) -> int {
    if at < off {
        at
    } else if at >= off + span {
        at - span + 1
    } else {
        off
    }
}

impl Editor {
    /// The characters of every line.
    pub open spec fn lines(&self) -> Seq<Seq<char>> {
        Seq::new(self.rows@.len(), |i: int| self.rows@[i].chars@)
    }

    /// The rules of the syntax in use.
    pub open spec fn rules(&self) -> Option<SyntaxRules> {
        rules_in(self.hldb@, self.syntax_ind)
    }

    /// The length of row `y`; 0 where there is no such row.
    pub open spec fn row_len(&self, y: int) -> nat {
        if 0 <= y < self.rows@.len() {
            self.rows@[y].chars@.len()
        } else {
            0
        }
    }

    /// Every row is well formed and the text area is not empty.
    pub open spec fn wf(&self) -> bool {
        &&& self.screen.wf()
        &&& forall|i: int| 0 <= i < self.rows@.len() ==> (#[trigger] self.rows@[i]).wf()
    }

    /// The cursor is on a row or right after the last, and within its row
    /// or right after it.
    pub open spec fn cursor_ok(&self) -> bool {
        &&& self.cursor.y <= self.rows@.len()
        &&& self.cursor.x <= self.row_len(self.cursor.y as int)
    }

    /// What typing `c` makes of the editor: the character stands at the
    /// cursor, on a new last row where the cursor stood after the last,
    /// the cursor has moved past it, the row is classified anew, no other
    /// row has changed, and the document counts as changed.
    pub open spec fn typed_into(&self, post: &Editor, c: char) -> bool {
        let y = self.cursor.y as int;
        &&& *post == (Editor {
            rows: post.rows,
            cursor: Position { x: (self.cursor.x + 1) as usize, y: self.cursor.y },
            dirty: true,
            ..*self
        })
        &&& post.lines() == typed(self.lines(), self.cursor, c)
        &&& post.rows@[y].fresh(self.rules())
        &&& forall|i: int| 0 <= i < self.rows@.len() && i != y ==> post.rows@[i] == self.rows@[i]
    }

    /// What a backspace makes of the editor. Within a row the character
    /// before the cursor is gone and the cursor stands on its place; at the
    /// start of a row that has a row before it, the row is joined to that
    /// one and the cursor stands on the joint; at the start of the document
    /// and after the last row nothing has changed.
    pub open spec fn erased(&self, post: &Editor) -> bool {
        let y = self.cursor.y as int;
        let x = self.cursor.x as int;
        if y >= self.rows@.len() || (x == 0 && y == 0) {
            *post == *self
        } else if x > 0 {
            &&& *post == (Editor {
                rows: post.rows,
                cursor: Position { x: (x - 1) as usize, y: self.cursor.y },
                dirty: true,
                ..*self
            })
            &&& post.rows@ == self.rows@.update(y, post.rows@[y])
            &&& post.rows@[y].chars@ == self.rows@[y].chars@.remove(x - 1)
            &&& post.rows@[y].fresh(self.rules())
        } else {
            &&& *post == (Editor {
                rows: post.rows,
                cursor: Position { x: self.rows@[y - 1].chars@.len() as usize, y: (y - 1) as usize },
                dirty: true,
                ..*self
            })
            &&& post.rows@ == self.rows@.remove(y).update(y - 1, post.rows@[y - 1])
            &&& post.rows@[y - 1].chars@ == self.rows@[y - 1].chars@ + self.rows@[y].chars@
            &&& post.rows@[y - 1].fresh(self.rules())
        }
    }

    /// What a line break makes of the editor: the cursor's row ends at the
    /// cursor, what stood from there on is the next row, the cursor stands
    /// at that row's start, and no other row has changed. At the start of
    /// a row, and after the last row, the new row is an empty one before
    /// the cursor's.
    pub open spec fn broke(&self, post: &Editor) -> bool {
        let y = self.cursor.y as int;
        &&& *post == (Editor {
            rows: post.rows,
            cursor: Position { x: 0, y: (y + 1) as usize },
            dirty: true,
            ..*self
        })
        &&& post.rows@.len() == self.rows@.len() + 1
        &&& post.lines() == broken(self.lines(), self.cursor)
        &&& forall|i: int| 0 <= i < y ==> post.rows@[i] == self.rows@[i]
        &&& forall|i: int| y < i < self.rows@.len() ==> post.rows@[i + 1] == self.rows@[i]
        &&& post.rows@[y].fresh(self.rules())
        &&& if self.cursor.x == 0 {
            y < self.rows@.len() ==> post.rows@[y + 1] == self.rows@[y]
        } else {
            post.rows@[y + 1].fresh(self.rules())
        }
    }

    /// What a key of the search prompt makes of the editor, the query
    /// being `query`.
    ///
    /// The match that was marked is unmarked. Enter and Escape end the
    /// search. Any other key has the rows looked through, each once, from
    /// the one that follows the last hit (without one, from the second
    /// row on, the first coming last). At the first row that holds the
    /// query, the search notes the row, puts the cursor on the first
    /// occurrence, marks it, and sets the window's first row behind the
    /// document, so that the next scrolling brings the hit into sight.
    /// Without a hit the cursor stays.
    pub open spec fn found(&self, post: &Editor, query: Seq<char>, event: PromptKey) -> bool {
        let n = self.rows@.len();
        let plan = search_plan(event, self.last_match, n as int);
        let start = if plan.1 is Some { plan.1->0 as int } else { 0 };
        let hit = if ends_search(event) { None } else { next_hit(self.renders(), query, start, plan.0, n) };
        &&& post.rows@.len() == n
        &&& match hit {
            None => {
                &&& *post == (Editor {
                    rows: post.rows,
                    last_match: plan.1,
                    direction: plan.0,
                    saved_hl: None,
                    ..*self
                })
                &&& post.row_views() == self.unmarked_views()
            },
            Some(row) => {
                let col = first_occurrence(self.renders()[row], query)->0;
                &&& *post == (Editor {
                    rows: post.rows,
                    last_match: Some(row as usize),
                    direction: plan.0,
                    saved_hl: Some(row as usize),
                    cursor: Position { x: index_at(self.rows@[row].chars@, col) as usize, y: row as usize },
                    rowoff: n as usize,
                    ..*self
                })
                &&& post.row_views() == self.unmarked_views().update(
                    row,
                    marked(self.unmarked_views()[row], col, query.len() as int),
                )
            },
        }
    }

    /// The editor with its cursor at `p`.
    pub open spec fn with_cursor(self, p: Position) -> Editor {
        Editor { cursor: p, ..self }
    }

    /// Tests whether the editor is well formed and its cursor is on a row
    /// or right after the last, within the row or right after it.
    pub fn is_valid(&self) -> (ok: bool)
        ensures
            ok == (self.wf() && self.cursor_ok()),
    {
        if self.screen.width < 1 || self.screen.width > 0xFFFF || self.screen.height < 1
            || self.screen.height > 0xFFFD {
            return false;
        }
        let mut i: usize = 0;
        while i < self.rows.len()
            invariant
                i <= self.rows.len(),
                forall|j: int| 0 <= j < i ==> (#[trigger] self.rows@[j]).wf(),
            decreases self.rows.len() - i,
        {
            if !self.rows[i].is_wf() {
                return false;
            }
            i += 1;
        }
        self.cursor.y <= self.rows.len() && self.cursor.x <= self.current_row_len()
    }

    /// The syntax in use.
    pub fn get_syntax_data(&self) -> (syntax: Option<&EditorSyntax>)
        ensures
            match syntax {
                Some(s) => syntax_in(self.hldb@, self.syntax_ind) == Some(*s),
                None => syntax_in(self.hldb@, self.syntax_ind) is None,
            },
            rules_of(syntax) == self.rules(),
    {
        pick(&self.hldb, self.syntax_ind)
    }

    /// The length of the cursor's row; 0 where the cursor is on none.
    pub fn current_row_len(&self) -> (n: usize)
        ensures
            n == self.row_len(self.cursor.y as int),
    {
        if self.cursor.y >= self.rows.len() {
            0
        } else {
            self.rows[self.cursor.y].len()
        }
    }

    /// Puts a row of the characters of `s` before row `at`, or after the
    /// last row where `at` is the number of rows. Beyond that nothing
    /// changes.
    pub fn insert_row(&mut self, at: usize, s: String)
        requires
            old(self).wf(),
        ensures
            final(self).wf(),
            at > old(self).rows@.len() ==> *final(self) == *old(self),
            at <= old(self).rows@.len() ==> {
                &&& *final(self) == (Editor { rows: final(self).rows, dirty: true, ..*old(self) })
                &&& final(self).rows@ == old(self).rows@.insert(at as int, final(self).rows@[at as int])
                &&& final(self).rows@[at as int].chars@ == s@
                &&& final(self).rows@[at as int].fresh(old(self).rules())
            },
    {
        if at > self.rows.len() {
            return ;
        }
        let syntax = pick(&self.hldb, self.syntax_ind);
        let row = Row::new(s, syntax);
        self.rows.insert(at, row);
        self.dirty = true;
    }

    /// Takes out row `at` and hands back its characters. Where there is no
    /// such row nothing changes.
    pub fn del_row(&mut self, at: usize) -> (text: Option<String>)
        requires
            old(self).wf(),
        ensures
            final(self).wf(),
            at >= old(self).rows@.len() ==> text is None && *final(self) == *old(self),
            at < old(self).rows@.len() ==> {
                &&& text is Some
                &&& text->0@ == old(self).rows@[at as int].chars@
                &&& *final(self) == (Editor { rows: final(self).rows, dirty: true, ..*old(self) })
                &&& final(self).rows@ == old(self).rows@.remove(at as int)
            },
    {
        if at >= self.rows.len() {
            None
        } else {
            self.dirty = true;
            let row = self.rows.remove(at);
            Some(chars_to_string(&row.chars))
        }
    }

    /// The text of the document: every line followed by a line end.
    pub fn rows_to_string(&self) -> (buf: String)
        ensures
            buf@ == joined(self.lines()),
    {
        let mut buf = String::new();
        let mut i: usize = 0;
        assert(self.lines().take(0) =~= Seq::<Seq<char>>::empty());
        while i < self.rows.len()
            invariant
                i <= self.rows.len(),
                buf@ == joined(self.lines().take(i as int)),
            decreases self.rows.len() - i,
        {
            push_chars(&mut buf, &self.rows[i].chars);
            buf.push('\n');
            proof {
                assert(self.lines().take(i + 1).drop_last() =~= self.lines().take(i as int));
                assert(self.lines().take(i + 1).last() == self.rows@[i as int].chars@);
                assert(buf@ =~= joined(self.lines().take(i as int)) + self.rows@[i as int].chars@ + seq!['\n']);
            }
            i += 1;
        }
        assert(self.lines().take(self.rows@.len() as int) =~= self.lines());
        buf
    }

    /// Types `c` at the cursor, on a new last row where the cursor stands
    /// after the last, and moves the cursor past it.
    pub fn insert_char(&mut self, c: char)
        requires
            old(self).wf(),
            old(self).cursor_ok(),
        ensures
            final(self).wf(),
            final(self).cursor_ok(),
            old(self).typed_into(final(self), c),
    {
        let y: usize = self.cursor.y;
        let x: usize = self.cursor.x;
        if y == self.rows.len() {
            self.insert_row(y, String::new());
        }
        let ghost mid = *self;
        let syntax = pick(&self.hldb, self.syntax_ind);
        self.rows[y].insert_char(x, c, syntax);
        assert(x < self.rows@[y as int].chars.len());
        self.cursor.x = x + 1;
        self.dirty = true;
        proof {
            assert(mid.rows@[y as int].chars@.insert(x as int, c) =~= self.rows@[y as int].chars@);
            assert(self.lines() =~= typed(old(self).lines(), old(self).cursor, c)) by {
                if old(self).cursor.y == old(self).rows@.len() {
                    assert(Seq::<char>::empty().insert(0, c) =~= seq![c]);
                }
            }
        }
    }

    /// Takes out the character before the cursor and moves the cursor onto
    /// its place. At the start of a row that has a row before it, joins the
    /// row to that one; at the start of the document, and after the last
    /// row, nothing changes.
    pub fn del_char(&mut self)
        requires
            old(self).wf(),
            old(self).cursor_ok(),
        ensures
            final(self).wf(),
            final(self).cursor_ok(),
            old(self).erased(final(self)),
    {
        let y: usize = self.cursor.y;
        let x: usize = self.cursor.x;
        if y == self.rows.len() {
            return ;
        }
        if x == 0 && y == 0 {
            return ;
        }
        if x > 0 {
            let syntax = pick(&self.hldb, self.syntax_ind);
            if self.rows[y].del_char(x - 1, syntax) {
                self.cursor.x = x - 1;
                self.dirty = true;
            }
            assert(self.rows@ =~= old(self).rows@.update(y as int, self.rows@[y as int]));
        } else {
            let joint: usize = self.rows[y - 1].len();
            if let Some(text) = self.del_row(y) {
                let syntax = pick(&self.hldb, self.syntax_ind);
                self.rows[y - 1].append_string(text.as_str(), syntax);
                self.cursor.x = joint;
                self.cursor.y = y - 1;
                self.dirty = true;
                assert(self.rows@ =~= old(self).rows@.remove(y as int).update(
                    y - 1,
                    self.rows@[y - 1],
                ));
            }
        }
    }

    /// Breaks the cursor's row at the cursor and moves the cursor to the
    /// start of the row that follows.
    pub fn insert_newline(&mut self)
        requires
            old(self).wf(),
            old(self).cursor_ok(),
        ensures
            final(self).wf(),
            final(self).cursor_ok(),
            old(self).broke(final(self)),
    {
        let y: usize = self.cursor.y;
        let x: usize = self.cursor.x;
        if x == 0 {
            self.insert_row(y, String::new());
            assert(self.lines() =~= broken(old(self).lines(), old(self).cursor)) by {
                if y < old(self).rows@.len() {
                    assert(old(self).lines()[y as int].take(0) =~= Seq::<char>::empty());
                    assert(old(self).lines()[y as int].skip(0) =~= old(self).lines()[y as int]);
                }
            }
        } else {
            let syntax = pick(&self.hldb, self.syntax_ind);
            let rest = self.rows[y].split(x, syntax);
            assert(y < self.rows.len());
            self.rows.insert(y + 1, rest);
            self.dirty = true;
            assert(self.lines() =~= broken(old(self).lines(), old(self).cursor)) by {
                let line = old(self).lines()[y as int];
                assert(self.rows@[y as int].chars@ =~= line.take(x as int));
                assert(self.rows@[y + 1].chars@ =~= line.skip(x as int)) by {
                    assert(self.rows@[y as int].chars@ + self.rows@[y + 1].chars@ == line);
                    assert(line.take(x as int) + line.skip(x as int) =~= line);
                    assert((self.rows@[y as int].chars@ + self.rows@[y + 1].chars@).skip(x as int)
                        =~= self.rows@[y + 1].chars@);
                }
            }
        }
        assert(y < self.rows.len());
        self.cursor.y = y + 1;
        self.cursor.x = 0;
    }
}

impl Editor {
    /// An editor whose document holds the pieces `data` as lines, but for
    /// an empty last piece, classified by the syntax that `filename` asks
    /// for. Nothing is changed yet and the cursor is at the start.
    pub fn build(data: &Vec<String>, filename: String, screen: Screen, now: u64) -> (editor: Editor)
        requires
            screen.wf(),
        ensures
            editor.wf(),
            editor.cursor_ok(),
            editor.lines() == loaded(Seq::new(data@.len(), |i: int| data@[i]@)),
            forall|i: int| 0 <= i < editor.rows@.len() ==> (#[trigger] editor.rows@[i]).fresh(editor.rules()),
            editor.filename == filename,
            editor.status_msg@ == "HELP: Ctrl-S = Save | Ctrl-Q = Quit"@,
            editor.status_time == now,
            editor.screen == screen,
            editor.cursor == (Position { x: 0, y: 0 }),
            editor.render_x == 0,
            !editor.dirty,
            editor.rowoff == 0,
            editor.coloff == 0,
            editor.quit_time == KILO_QUIT_TIMES,
            editor.last_match is None,
            editor.direction == SearchDirection::Forward,
            editor.saved_hl is None,
            builtin_syntaxes(editor.hldb@),
            editor.syntax_ind == chosen_syntax(editor.hldb@, filename@),
    {
        let hldb = EditorSyntax::new();
        let syntax_ind = Editor::find_highlight(&hldb, filename.as_str());
        let mut rows: Vec<Row> = Vec::new();
        let ghost pieces = Seq::new(data@.len(), |i: int| data@[i]@);
        let mut i: usize = 0;
        while i < data.len()
            invariant
                i <= data.len(),
                rows@.len() == i,
                forall|j: int|
                    0 <= j < i ==> (#[trigger] rows@[j]).chars@ == data@[j]@ && rows@[j].fresh(
                        rules_in(hldb@, syntax_ind),
                    ),
            decreases data.len() - i,
        {
            let syntax = pick(&hldb, syntax_ind);
            rows.push(Row::new(data[i].clone(), syntax));
            i += 1;
        }
        if rows.len() > 0 && rows[rows.len() - 1].len() == 0 {
            rows.pop();
        }
        let editor = Editor {
            filename,
            status_msg: "HELP: Ctrl-S = Save | Ctrl-Q = Quit".to_owned(),
            status_time: now,
            screen,
            cursor: Position { x: 0, y: 0 },
            render_x: 0,
            dirty: false,
            rows,
            rowoff: 0,
            coloff: 0,
            quit_time: KILO_QUIT_TIMES,
            last_match: None,
            direction: SearchDirection::Forward,
            saved_hl: None,
            hldb,
            syntax_ind,
        };
        assert(editor.lines() =~= loaded(pieces));
        editor
    }

    /// An editor with an empty document and no file name.
    pub fn new(screen: Screen, now: u64) -> (editor: Editor)
        requires
            screen.wf(),
        ensures
            editor.wf(),
            editor.cursor_ok(),
            editor.rows@.len() == 0,
            editor.filename@.len() == 0,
            editor.status_msg@ == "HELP: Ctrl-S = Save | Ctrl-Q = Quit"@,
            editor.status_time == now,
            editor.screen == screen,
            editor.cursor == (Position { x: 0, y: 0 }),
            editor.render_x == 0,
            !editor.dirty,
            editor.rowoff == 0,
            editor.coloff == 0,
            editor.quit_time == KILO_QUIT_TIMES,
            editor.last_match is None,
            editor.direction == SearchDirection::Forward,
            editor.saved_hl is None,
            builtin_syntaxes(editor.hldb@),
            editor.syntax_ind is None,
    {
        let data: Vec<String> = Vec::new();
        Editor::build(&data, String::new(), screen, now)
    }

    /// An editor on the file `filename`, whose text is `contents`: the
    /// document holds the pieces between the line ends, but for an empty
    /// last piece.
    pub fn with_file(filename: String, contents: &str, screen: Screen, now: u64) -> (editor: Editor)
        requires
            screen.wf(),
        ensures
            editor.wf(),
            editor.cursor_ok(),
            editor.lines() == loaded(split_text(contents@)),
            forall|i: int| 0 <= i < editor.rows@.len() ==> (#[trigger] editor.rows@[i]).fresh(editor.rules()),
            editor.filename == filename,
            editor.status_msg@ == "HELP: Ctrl-S = Save | Ctrl-Q = Quit"@,
            editor.status_time == now,
            editor.screen == screen,
            editor.cursor == (Position { x: 0, y: 0 }),
            editor.render_x == 0,
            !editor.dirty,
            editor.rowoff == 0,
            editor.coloff == 0,
            editor.quit_time == KILO_QUIT_TIMES,
            editor.last_match is None,
            editor.direction == SearchDirection::Forward,
            editor.saved_hl is None,
            builtin_syntaxes(editor.hldb@),
            editor.syntax_ind == chosen_syntax(editor.hldb@, filename@),
    {
        let data = split_lines(contents);
        assert(Seq::new(data@.len(), |i: int| data@[i]@) =~= split_text(contents@));
        Editor::build(&data, filename, screen, now)
    }

    /// The index of the first syntax in `hldb` one of whose matchers is the
    /// extension of `filename`. A file without a name has no syntax.
    pub fn find_highlight(hldb: &Vec<EditorSyntax>, filename: &str) -> (ind: Option<usize>)
        ensures
            ind == chosen_syntax(hldb@, filename@),
            ind is Some ==> ind->0 < hldb@.len(),
    {
        if filename.unicode_len() == 0 {
            return None;
        }
        let ext = extension_of(filename);
        let mut j: usize = 0;
        while j < hldb.len()
            invariant
                j <= hldb.len(),
                filename@.len() > 0,
                ext@ == extension(filename@),
                first_syntax(hldb@, ext@, 0) == first_syntax(hldb@, ext@, j as int),
            decreases hldb.len() - j,
        {
            if has_matcher(&hldb[j], &ext) {
                return Some(j);
            }
            j += 1;
        }
        None
    }

    /// Chooses the syntax anew from the file name. Where the choice
    /// changes, every row is classified anew: its classes are those of its
    /// rendering under the new rules, and nothing else of it changes.
    pub fn select_syntax_highlight(&mut self)
        requires
            old(self).wf(),
        ensures
            final(self).wf(),
            *final(self) == (Editor {
                rows: final(self).rows,
                syntax_ind: final(self).syntax_ind,
                ..*old(self)
            }),
            final(self).syntax_ind == chosen_syntax(old(self).hldb@, old(self).filename@),
            final(self).syntax_ind == old(self).syntax_ind ==> final(self).rows == old(self).rows,
            final(self).syntax_ind != old(self).syntax_ind ==> {
                &&& final(self).rows@.len() == old(self).rows@.len()
                &&& forall|i: int|
                    0 <= i < old(self).rows@.len() ==> {
                        &&& (#[trigger] final(self).rows@[i])@ == reclassified(
                            old(self).rows@[i]@,
                            final(self).rules(),
                        )
                        &&& final(self).rows@[i].saved_hl == old(self).rows@[i].saved_hl
                        &&& final(self).rows@[i].hl@ == highlight_of(
                            final(self).rows@[i].render@,
                            final(self).rules(),
                        )
                    }
            },
    {
        let old_syntax = self.syntax_ind;
        self.syntax_ind = Editor::find_highlight(&self.hldb, self.filename.as_str());
        if self.syntax_ind != old_syntax {
            let mut i: usize = 0;
            while i < self.rows.len()
                invariant
                    i <= self.rows.len(),
                    *self == (Editor { rows: self.rows, syntax_ind: self.syntax_ind, ..*old(self) }),
                    self.rows@.len() == old(self).rows@.len(),
                    old(self).wf(),
                    self.syntax_ind != old(self).syntax_ind,
                    self.syntax_ind == chosen_syntax(old(self).hldb@, old(self).filename@),
                    forall|j: int|
                        0 <= j < i ==> {
                            &&& (#[trigger] self.rows@[j])@ == reclassified(
                                old(self).rows@[j]@,
                                self.rules(),
                            )
                            &&& self.rows@[j].saved_hl == old(self).rows@[j].saved_hl
                            &&& self.rows@[j].wf()
                        },
                    forall|j: int| i <= j < self.rows@.len() ==> self.rows@[j] == old(self).rows@[j],
                decreases self.rows.len() - i,
            {
                let syntax = pick(&self.hldb, self.syntax_ind);
                self.rows[i].update_syntax(syntax);
                i += 1;
            }
        }
    }

    /// Moves the cursor to the first row, and onto its end where the row is
    /// shorter than the cursor's column.
    pub fn move_to_home(&mut self)
        ensures
            *final(self) == (Editor { cursor: final(self).cursor, ..*old(self) }),
            final(self).cursor.y == 0,
            final(self).cursor.x == if old(self).cursor.x <= old(self).row_len(0) {
                old(self).cursor.x as int
            } else {
                old(self).row_len(0) as int
            },
            final(self).cursor_ok(),
    {
        self.cursor.y = 0;
        let len: usize = self.current_row_len();
        if self.cursor.x > len {
            self.cursor.x = len;
        }
    }

    /// Moves the cursor to the end of its row, if it is on one.
    pub fn move_to_end(&mut self)
        ensures
            *final(self) == (Editor { cursor: final(self).cursor, ..*old(self) }),
            final(self).cursor.y == old(self).cursor.y,
            final(self).cursor.x == if old(self).cursor.y < old(self).rows@.len() {
                old(self).row_len(old(self).cursor.y as int) as int
            } else {
                old(self).cursor.x as int
            },
    {
        if self.cursor.y < self.rows.len() {
            self.cursor.x = self.current_row_len();
        }
    }

    /// Where one step of `key` takes the cursor: left and right go on to
    /// the neighbouring row at a row's ends, down goes as far as the row
    /// after the last, and the column is never beyond the row's end.
    pub open spec fn moved(&self, key: EditorKey) -> Position {
        let p = self.cursor;
        let q = match key {
            EditorKey::Left => if p.x != 0 {
                Position { x: (p.x - 1) as usize, y: p.y }
            } else if p.y > 0 {
                Position { x: self.row_len(p.y - 1) as usize, y: (p.y - 1) as usize }
            } else {
                p
            },
            EditorKey::Right => if p.y < self.rows@.len() {
                if p.x < self.row_len(p.y as int) {
                    Position { x: (p.x + 1) as usize, y: p.y }
                } else {
                    Position { x: 0, y: (p.y + 1) as usize }
                }
            } else {
                p
            },
            EditorKey::Up => if p.y > 0 {
                Position { x: p.x, y: (p.y - 1) as usize }
            } else {
                p
            },
            EditorKey::Down => if p.y < self.rows@.len() {
                Position { x: p.x, y: (p.y + 1) as usize }
            } else {
                p
            },
        };
        Position { x: if q.x <= self.row_len(q.y as int) { q.x } else { self.row_len(q.y as int) as usize }, y: q.y }
    }

    /// Moves the cursor by one step.
    pub fn move_cursor(&mut self, key: EditorKey)
        ensures
            *final(self) == (Editor { cursor: old(self).moved(key), ..*old(self) }),
            old(self).cursor.y <= old(self).rows@.len() ==> final(self).cursor_ok(),
    {
        match key {
            EditorKey::Left => {
                if self.cursor.x != 0 {
                    self.cursor.x -= 1;
                } else if self.cursor.y > 0 {
                    self.cursor.y -= 1;
                    self.cursor.x = self.current_row_len();
                }
            },
            EditorKey::Right => {
                if self.cursor.y < self.rows.len() {
                    if self.cursor.x < self.rows[self.cursor.y].len() {
                        self.cursor.x += 1;
                    } else {
                        self.cursor.y += 1;
                        self.cursor.x = 0;
                    }
                }
            },
            EditorKey::Up => {
                if self.cursor.y > 0 {
                    self.cursor.y -= 1;
                }
            },
            EditorKey::Down => {
                if self.cursor.y < self.rows.len() {
                    self.cursor.y += 1;
                }
            },
        }
        let len: usize = self.current_row_len();
        if self.cursor.x > len {
            self.cursor.x = len;
        }
    }

    /// Finds the cursor's visual column and moves the window as little as
    /// it takes to hold the cursor.
    pub fn scroll(&mut self)
        requires
            old(self).wf(),
        ensures
            old(self).viewed(final(self)),
            final(self).rowoff <= final(self).cursor.y < final(self).rowoff + final(self).screen.height,
            final(self).coloff <= final(self).render_x < final(self).coloff + final(self).screen.width,
    {
        let bounds = self.screen.bounds();
        self.render_x = if self.cursor.y < self.rows.len() {
            self.rows[self.cursor.y].cx_to_rx(self.cursor.x)
        } else {
            0
        };
        if self.cursor.y < self.rowoff {
            self.rowoff = self.cursor.y;
        }
        if self.cursor.y - self.rowoff >= bounds.y {
            self.rowoff = self.cursor.y - (bounds.y - 1);
        }
        if self.render_x < self.coloff {
            self.coloff = self.render_x;
        }
        if self.render_x - self.coloff >= bounds.x {
            self.coloff = self.render_x - (bounds.x - 1);
        }
    }

    /// What scrolling makes of the editor: the cursor's visual column is
    /// found, and each offset is where it has to be to hold the cursor.
    pub open spec fn viewed(&self, post: &Editor) -> bool {
        &&& *post == (Editor {
            render_x: post.render_x,
            rowoff: post.rowoff,
            coloff: post.coloff,
            ..*self
        })
        &&& post.render_x == self.cursor_column()
        &&& post.rowoff == scrolled(self.rowoff as int, self.cursor.y as int, self.screen.height as int)
        &&& post.coloff == scrolled(self.coloff as int, post.render_x as int, self.screen.width as int)
    }

    /// The visual column of the cursor: that of its character in its row,
    /// or of the row's end where the cursor is beyond it; 0 where the
    /// cursor is on no row.
    pub open spec fn cursor_column(&self) -> nat {
        if self.cursor.y < self.rows@.len() {
            let chars = self.rows@[self.cursor.y as int].chars@;
            column_of(chars, if self.cursor.x <= chars.len() { self.cursor.x as int } else { chars.len() as int })
        } else {
            0
        }
    }
}

/// The row that a search looks at after row `current`, among `n` rows:
/// the next in its direction, and from either end on to the other.
pub open spec fn step(current: int, direction: SearchDirection, n: int) -> int {
    match direction {
        SearchDirection::Forward => if current + 1 >= n {
            0
        } else {
            current + 1
        },
        SearchDirection::Backward => if current == 0 {
            n - 1
        } else {
            current - 1
        },
    }
}

/// The first row in whose rendering `query` occurs, among the `left` rows
/// that a search looks at after row `current`.
pub open spec fn next_hit(
    renders: Seq<Seq<char>>,
    query: Seq<char>,
    current: int,
    direction: SearchDirection,
    left: nat,
) -> Option<int>
    decreases left,
{
    if left == 0 {
        None
    } else {
        let row = step(current, direction, renders.len() as int);
        if first_occurrence(renders[row], query) is Some {
            Some(row)
        } else {
            next_hit(renders, query, row, direction, (left - 1) as nat)
        }
    }
}

/// What a search is left with by a key of its prompt, before it looks at
/// any row: the way it walks, and the row of the last hit from which it
/// does. Enter and Escape end the search; a changed query starts it anew,
/// as does a last hit on a row that is no more; only the keys for the next
/// and the previous hit go on from the last one.
pub open spec fn search_plan(
    event: PromptKey,
    last_match: Option<usize>,
    n: int,
) -> (SearchDirection, Option<usize>) {
    match event {
        PromptKey::Next => if last_match is Some && last_match->0 < n {
            (SearchDirection::Forward, last_match)
        } else {
            (SearchDirection::Forward, None)
        },
        PromptKey::Previous => if last_match is Some && last_match->0 < n {
            (SearchDirection::Backward, last_match)
        } else {
            (SearchDirection::Forward, None)
        },
        _ => (SearchDirection::Forward, None),
    }
}

/// Whether a key of the prompt ends the search.
pub open spec fn ends_search(event: PromptKey) -> bool {
    event == PromptKey::Enter || event == PromptKey::Escape
}

impl Editor {
    /// What every row holds.
    pub open spec fn row_views(&self) -> Seq<RowView> {
        views_of(self.rows@)
    }

    /// The rendering of every row.
    pub open spec fn renders(&self) -> Seq<Seq<char>> {
        Seq::new(self.rows@.len(), |i: int| self.rows@[i].render@)
    }

    /// What every row holds once the match that the search has marked is
    /// unmarked.
    pub open spec fn unmarked_views(&self) -> Seq<RowView> {
        if self.saved_hl is Some && self.saved_hl->0 < self.rows@.len() {
            self.row_views().update(
                self.saved_hl->0 as int,
                unmarked(self.rows@[self.saved_hl->0 as int]@),
            )
        } else {
            self.row_views()
        }
    }

    /// Looks for the query in the rows that follow row `start` in the
    /// search's direction, as many as there are rows, and hands back the
    /// first row with a hit and the hit's visual column.
    fn search(&self, query: &Vec<char>, start: usize, direction: SearchDirection) -> (hit: Option<
        (usize, usize),
    >)
        requires
            start < self.rows@.len() || start == 0,
        ensures
            match hit {
                Some((row, col)) => {
                    &&& row < self.rows@.len()
                    &&& next_hit(self.renders(), query@, start as int, direction, self.rows@.len())
                        == Some(row as int)
                    &&& first_occurrence(self.rows@[row as int].render@, query@) == Some(col as int)
                },
                None => next_hit(self.renders(), query@, start as int, direction, self.rows@.len())
                    is None,
            },
    {
        let n: usize = self.rows.len();
        let mut current: usize = start;
        let mut left: usize = n;
        while left > 0
            invariant
                n == self.rows.len(),
                left <= n,
                current < n || left == 0,
                next_hit(self.renders(), query@, current as int, direction, left as nat) == next_hit(
                    self.renders(),
                    query@,
                    start as int,
                    direction,
                    n as nat,
                ),
            decreases left,
        {
            match direction {
                SearchDirection::Forward => {
                    current += 1;
                    if current >= n {
                        current = 0;
                    }
                },
                SearchDirection::Backward => {
                    if current == 0 {
                        current = n - 1;
                    } else {
                        current -= 1;
                    }
                },
            }
            match find(&self.rows[current].render, query) {
                Some(col) => {
                    return Some((current, col));
                },
                None => {},
            }
            left -= 1;
        }
        None
    }

    /// The search's answer to a key of its prompt, the query being `query`.
    pub fn find_callback(&mut self, query: &str, event: PromptKey)
        requires
            old(self).wf(),
        ensures
            final(self).wf(),
            old(self).cursor_ok() ==> final(self).cursor_ok(),
            old(self).found(final(self), query@, event),
    {
        self.unmark();
        let n: usize = self.rows.len();
        match event {
            PromptKey::Escape | PromptKey::Enter => {
                self.last_match = None;
                self.direction = SearchDirection::Forward;
                return ;
            },
            PromptKey::Next => {
                self.direction = SearchDirection::Forward;
            },
            PromptKey::Previous => {
                self.direction = SearchDirection::Backward;
            },
            PromptKey::Char(_) => {
                self.last_match = None;
                self.direction = SearchDirection::Forward;
            },
        }
        let start: usize = match self.last_match {
            Some(row) => if row < n {
                row
            } else {
                self.last_match = None;
                self.direction = SearchDirection::Forward;
                0
            },
            None => {
                self.direction = SearchDirection::Forward;
                0
            },
        };
        let pattern = str_chars(query);
        let direction = self.direction;
        match self.search(&pattern, start, direction) {
            Some((row, col)) => {
                self.mark_hit(row, col, pattern.len());
            },
            None => {},
        }
    }

    /// Unmarks the match that the search has marked.
    fn unmark(&mut self)
        requires
            old(self).wf(),
        ensures
            final(self).wf(),
            *final(self) == (Editor { rows: final(self).rows, saved_hl: None, ..*old(self) }),
            final(self).rows@.len() == old(self).rows@.len(),
            final(self).row_views() == old(self).unmarked_views(),
            final(self).renders() == old(self).renders(),
            forall|i: int|
                0 <= i < old(self).rows@.len() ==> (#[trigger] final(self).rows@[i]).chars@ == old(
                    self,
                ).rows@[i].chars@,
    {
        match self.saved_hl {
            Some(row) => {
                if row < self.rows.len() {
                    self.rows[row].reset_match();
                }
                self.saved_hl = None;
            },
            None => {},
        }
        assert(self.row_views() =~= old(self).unmarked_views());
        assert(self.renders() =~= old(self).renders());
    }

    /// Notes a hit at visual column `col` of row `row`, `len` characters
    /// long: marks it and puts the cursor on it.
    fn mark_hit(&mut self, row: usize, col: usize, len: usize)
        requires
            old(self).wf(),
            row < old(self).rows@.len(),
        ensures
            final(self).wf(),
            final(self).cursor_ok(),
            final(self).rows@.len() == old(self).rows@.len(),
            *final(self) == (Editor {
                rows: final(self).rows,
                last_match: Some(row),
                saved_hl: Some(row),
                cursor: Position {
                    x: index_at(old(self).rows@[row as int].chars@, col as int) as usize,
                    y: row,
                },
                rowoff: old(self).rows@.len() as usize,
                ..*old(self)
            }),
            final(self).row_views() == old(self).row_views().update(
                row as int,
                marked(old(self).row_views()[row as int], col as int, len as int),
            ),
    {
        self.last_match = Some(row);
        self.cursor.y = row;
        self.cursor.x = self.rows[row].rx_to_cx(col);
        self.rowoff = self.rows.len();
        self.rows[row].highlight_match(col, len);
        self.saved_hl = Some(row);
        assert(self.row_views() =~= old(self).row_views().update(
            row as int,
            marked(old(self).row_views()[row as int], col as int, len as int),
        ));
    }
}

/// Scrolling a second time moves nothing: an offset that holds a place
/// among the `span` shown from it is left where it is.
pub proof fn lemma_scrolled_idempotent(off: int, at: int, span: int)
    requires
        span >= 1,
    ensures
        scrolled(off, at, span) <= at < scrolled(off, at, span) + span,
        scrolled(scrolled(off, at, span), at, span) == scrolled(off, at, span),
{
}

/// Scrolling a second time, with nothing changed in between, leaves the
/// editor as the first scrolling left it.
pub proof fn lemma_scroll_twice(before: Editor, once: Editor, twice: Editor)
    requires
        before.screen.wf(),
        before.viewed(&once),
        once.viewed(&twice),
    ensures
        twice == once,
{
    lemma_scrolled_idempotent(before.rowoff as int, before.cursor.y as int, before.screen.height as int);
    lemma_scrolled_idempotent(before.coloff as int, once.render_x as int, before.screen.width as int);
}

/// What is loaded from a text and written out again is the text itself
/// where the text is empty or ends in a line end; any other text comes
/// back with a line end added.
pub proof fn lemma_load_save(text: Seq<char>)
    ensures
        joined(loaded(split_text(text))) == if text.len() == 0 || text.last() == '\n' {
            text
        } else {
            text.push('\n')
        },
{
    lemma_split_text(text);
    let pieces = split_text(text);
    if pieces.last().len() != 0 {
        assert(joined(pieces) =~= text.push('\n'));
    }
}

/// The pieces of a text, each but the last followed by a line end, make up
/// the text; and the last piece is empty just where the text is empty or
/// ends in a line end.
pub proof fn lemma_split_text(text: Seq<char>)
    ensures
        split_text(text).len() >= 1,
        joined(split_text(text).drop_last()) + split_text(text).last() == text,
        split_text(text).last().len() == 0 <==> text.len() == 0 || text.last() == '\n',
    decreases text.len(),
{
    let pieces = split_text(text);
    if text.len() == 0 {
        assert(pieces.drop_last() =~= Seq::<Seq<char>>::empty());
        assert(joined(pieces.drop_last()) + pieces.last() =~= text);
    } else {
        let head = text.drop_last();
        let before = split_text(head);
        lemma_split_text(head);
        if text.last() == '\n' {
            assert(pieces.drop_last() =~= before);
            assert(joined(before) == joined(before.drop_last()) + before.last() + seq!['\n']);
            assert(joined(pieces.drop_last()) + pieces.last() =~= head + seq!['\n']);
            assert(head + seq!['\n'] =~= text);
        } else {
            assert(pieces.drop_last() =~= before.drop_last());
            assert(joined(pieces.drop_last()) + pieces.last() =~= (joined(before.drop_last())
                + before.last()).push(text.last()));
            assert(head.push(text.last()) =~= text);
        }
    }
}

/// Typing into the empty document gives what typing at the start of a
/// document of one empty line gives: one line of the character typed, and
/// the cursor behind it.
pub proof fn lemma_typed_in_empty(empty: Editor, one: Editor, after_empty: Editor, after_one: Editor, c: char)
    requires
        empty.rows@.len() == 0,
        one.rows@.len() == 1,
        one.rows@[0].chars@.len() == 0,
        empty.cursor == (Position { x: 0, y: 0 }),
        one.cursor == (Position { x: 0, y: 0 }),
        empty.typed_into(&after_empty, c),
        one.typed_into(&after_one, c),
    ensures
        after_empty.lines() == seq![seq![c]],
        after_one.lines() == after_empty.lines(),
        after_one.cursor == after_empty.cursor,
{
    assert(empty.lines() =~= Seq::<Seq<char>>::empty());
    assert(one.rows@[0].chars@ =~= Seq::<char>::empty());
    assert(one.lines() =~= seq![Seq::<char>::empty()]);
    assert(typed(Seq::empty(), Position { x: 0, y: 0 }, c) =~= seq![seq![c]]);
    assert(Seq::<char>::empty().insert(0, c) =~= seq![c]);
    assert(typed(seq![Seq::empty()], Position { x: 0, y: 0 }, c) =~= seq![seq![c]]);
}

/// The part of a file name after its last point; the whole name where it
/// has none.
pub open spec fn extension(name: Seq<char>) -> Seq<char>
    decreases name.len(),
{
    if name.len() == 0 || name.last() == '.' {
        Seq::empty()
    } else {
        extension(name.drop_last()).push(name.last())
    }
}

/// The index of the first matcher from `m` on that is `ext`.
pub open spec fn matcher_in(filematch: Seq<String>, ext: Seq<char>, m: int) -> Option<int>
    decreases filematch.len() - m,
{
    if m < 0 || m >= filematch.len() {
        None
    } else if filematch[m]@ == ext {
        Some(m)
    } else {
        matcher_in(filematch, ext, m + 1)
    }
}

/// The index of the first syntax from `j` on that has `ext` among its
/// matchers.
pub open spec fn first_syntax(hldb: Seq<EditorSyntax>, ext: Seq<char>, j: int) -> Option<usize>
    decreases hldb.len() - j,
{
    if j < 0 || j >= hldb.len() {
        None
    } else if matcher_in(hldb[j].filematch@, ext, 0) is Some {
        Some(j as usize)
    } else {
        first_syntax(hldb, ext, j + 1)
    }
}

/// The syntax that a file name asks for: the first that has the name's
/// extension among its matchers. A file without a name has none.
pub open spec fn chosen_syntax(hldb: Seq<EditorSyntax>, filename: Seq<char>) -> Option<usize> {
    if filename.len() == 0 {
        None
    } else {
        first_syntax(hldb, extension(filename), 0)
    }
}

/// The pieces of `text` between its line ends.
pub fn split_lines(text: &str) -> (pieces: Vec<String>)
    ensures
        Seq::new(pieces@.len(), |i: int| pieces@[i]@) == split_text(text@),
{
    let chars = str_chars(text);
    let mut pieces: Vec<String> = Vec::new();
    let mut piece = String::new();
    let mut i: usize = 0;
    assert(chars@.take(0) =~= Seq::<char>::empty());
    while i < chars.len()
        invariant
            i <= chars.len(),
            Seq::new(pieces@.len(), |j: int| pieces@[j]@).push(piece@) =~= split_text(chars@.take(i as int)),
        decreases chars.len() - i,
    {
        let ghost before = Seq::new(pieces@.len(), |j: int| pieces@[j]@).push(piece@);
        proof {
            assert(chars@.take(i + 1).drop_last() =~= chars@.take(i as int));
        }
        if chars[i] == '\n' {
            pieces.push(piece);
            piece = String::new();
        } else {
            piece.push(chars[i]);
            assert(before.drop_last() =~= Seq::new(pieces@.len(), |j: int| pieces@[j]@));
        }
        i += 1;
    }
    assert(chars@.take(chars@.len() as int) =~= chars@);
    pieces.push(piece);
    pieces
}

/// The part of `filename` after its last point.
fn extension_of(filename: &str) -> (ext: Vec<char>)
    ensures
        ext@ == extension(filename@),
{
    let name = str_chars(filename);
    let mut start: usize = name.len();
    assert(name@.take(name@.len() as int) =~= name@);
    assert(name@.skip(name@.len() as int) =~= Seq::<char>::empty());
    while start > 0 && name[start - 1] != '.'
        invariant
            start <= name.len(),
            extension(name@) =~= extension(name@.take(start as int)) + name@.skip(start as int),
        decreases start,
    {
        proof {
            let head = name@.take(start as int);
            assert(head.drop_last() =~= name@.take(start - 1));
            assert(seq![head.last()] + name@.skip(start as int) =~= name@.skip(start - 1));
        }
        start -= 1;
    }
    let mut ext: Vec<char> = Vec::new();
    let mut k: usize = start;
    while k < name.len()
        invariant
            start <= k <= name.len(),
            ext@ =~= name@.subrange(start as int, k as int),
        decreases name.len() - k,
    {
        ext.push(name[k]);
        k += 1;
    }
    assert(ext@ =~= name@.skip(start as int));
    ext
}

/// Tests whether `ext` is among the matchers of `entry`.
fn has_matcher(entry: &EditorSyntax, ext: &Vec<char>) -> (found: bool)
    ensures
        found == (matcher_in(entry.filematch@, ext@, 0) is Some),
{
    let mut m: usize = 0;
    while m < entry.filematch.len()
        invariant
            m <= entry.filematch.len(),
            matcher_in(entry.filematch@, ext@, 0) == matcher_in(entry.filematch@, ext@, m as int),
        decreases entry.filematch.len() - m,
    {
        let matcher = str_chars(entry.filematch[m].as_str());
        if same_chars(&matcher, ext) {
            return true;
        }
        m += 1;
    }
    false
}

/// The lines after the line at `pos` is broken there: what stands before
/// `pos.x` stays, what stands from it on becomes the next line. On the row
/// after the last an empty line is added.
pub open spec fn broken(lines: Seq<Seq<char>>, pos: Position) -> Seq<Seq<char>> {
    if pos.y < lines.len() {
        let line = lines[pos.y as int];
        lines.update(pos.y as int, line.take(pos.x as int)).insert(pos.y + 1, line.skip(pos.x as int))
    } else {
        lines.push(Seq::empty())
    }
}

} // verus!
