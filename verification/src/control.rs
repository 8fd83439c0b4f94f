//! What the editor does with a key, with the keys of a prompt, and with
//! the outcome of saving; and what it paints.

use vstd::prelude::*;
use crate::Position;
use crate::editor::{Editor, EditorKey, KILO_QUIT_TIMES, PromptKey, chosen_syntax};
use crate::keyboard::{KeyCode, KeyEvent, KeyModifiers};
use crate::row::{highlight_of, reclassified};
use crate::screen::{DrawCommand, frame_commands, status_bar_commands};
use crate::text::{chars_to_string, decimal, push_all, push_decimal, push_str_chars};

verus! {

/// How long a message is shown, in milliseconds.
pub const MESSAGE_MILLIS: u64 = 5000;

/// What a key asks the editor to do.
#[derive(Clone, Copy, Debug, PartialEq, Eq, Structural)]
pub enum Command {
    Quit,
    Save,
    Find,
    /// Nothing at all.
    Noop,
    /// Take out the character before the cursor.
    DeleteChar,
    /// Take out the character under the cursor.
    DeleteForward,
    /// Type a character.
    InsertChar(char),
    /// Break the line at the cursor.
    Split,
    Home,
    End,
    MoveCursor(EditorKey),
    PageUp,
    PageDown,
    /// A key that has no meaning.
    Unknown,
}

/// What the caller has to do after a key.
#[derive(Clone, Copy, Debug, PartialEq, Eq, Structural)]
pub enum Request {
    /// Go on with the next key.
    Continue,
    /// Leave the editor.
    Quit,
    /// Write the document to its file.
    Save,
    /// Open the search prompt.
    Find,
}

/// Where a prompt stands after a key.
#[derive(Clone, Copy, Debug, PartialEq, Eq, Structural)]
pub enum PromptState {
    /// It waits for the next key.
    Open,
    /// Its text was accepted.
    Accepted,
    /// It was called off.
    Cancelled,
}

/// What a key means to a prompt.
#[derive(Clone, Copy, Debug, PartialEq, Eq, Structural)]
pub enum PromptInput {
    Cancel,
    Accept,
    /// Take out the last character of the text.
    Erase,
    /// Go to the previous hit.
    Back,
    /// Go to the next hit.
    Forth,
    Type(char),
    Ignore,
}

/// Where the window and the cursor stood when a search began.
#[derive(Clone, Copy, Debug, PartialEq, Eq, Structural)]
pub struct SearchOrigin {
    pub cursor: Position,
    pub coloff: usize,
    pub rowoff: usize,
}

/// What a key asks for. Control with `q`, `s`, `f`, `l` and `h` quits,
/// saves, searches, rests and erases; a character alone or with Shift, and
/// Tab alone, are typed; of the other keys those that edit and move do so
/// whatever is held down with them.
pub open spec fn command_of(key: KeyEvent) -> Command {
    match (key.code, key.modifiers) {
        (KeyCode::Char('q'), KeyModifiers::Control) => Command::Quit,
        (KeyCode::Char('s'), KeyModifiers::Control) => Command::Save,
        (KeyCode::Char('f'), KeyModifiers::Control) => Command::Find,
        (KeyCode::Char('l'), KeyModifiers::Control) => Command::Noop,
        (KeyCode::Char('h'), KeyModifiers::Control) => Command::DeleteChar,
        (KeyCode::Char(c), KeyModifiers::Plain) => Command::InsertChar(c),
        (KeyCode::Tab, KeyModifiers::Plain) => Command::InsertChar('\t'),
        (KeyCode::Char(c), KeyModifiers::Shift) => Command::InsertChar(c),
        (KeyCode::Delete, _) => Command::DeleteForward,
        (KeyCode::Backspace, _) => Command::DeleteChar,
        (KeyCode::Enter, _) => Command::Split,
        (KeyCode::Esc, _) => Command::Noop,
        (KeyCode::Home, _) => Command::Home,
        (KeyCode::End, _) => Command::End,
        (KeyCode::Up, _) => Command::MoveCursor(EditorKey::Up),
        (KeyCode::Down, _) => Command::MoveCursor(EditorKey::Down),
        (KeyCode::Left, _) => Command::MoveCursor(EditorKey::Left),
        (KeyCode::Right, _) => Command::MoveCursor(EditorKey::Right),
        (KeyCode::PageUp, _) => Command::PageUp,
        (KeyCode::PageDown, _) => Command::PageDown,
        _ => Command::Unknown,
    }
}

/// What a key asks for.
pub fn decode(key: KeyEvent) -> (command: Command)
    ensures
        command == command_of(key),
{
    match (key.code, key.modifiers) {
        (KeyCode::Char('q'), KeyModifiers::Control) => Command::Quit,
        (KeyCode::Char('s'), KeyModifiers::Control) => Command::Save,
        (KeyCode::Char('f'), KeyModifiers::Control) => Command::Find,
        (KeyCode::Char('l'), KeyModifiers::Control) => Command::Noop,
        (KeyCode::Char('h'), KeyModifiers::Control) => Command::DeleteChar,
        (KeyCode::Char(c), KeyModifiers::Plain) => Command::InsertChar(c),
        (KeyCode::Tab, KeyModifiers::Plain) => Command::InsertChar('\t'),
        (KeyCode::Char(c), KeyModifiers::Shift) => Command::InsertChar(c),
        (KeyCode::Delete, _) => Command::DeleteForward,
        (KeyCode::Backspace, _) => Command::DeleteChar,
        (KeyCode::Enter, _) => Command::Split,
        (KeyCode::Esc, _) => Command::Noop,
        (KeyCode::Home, _) => Command::Home,
        (KeyCode::End, _) => Command::End,
        (KeyCode::Up, _) => Command::MoveCursor(EditorKey::Up),
        (KeyCode::Down, _) => Command::MoveCursor(EditorKey::Down),
        (KeyCode::Left, _) => Command::MoveCursor(EditorKey::Left),
        (KeyCode::Right, _) => Command::MoveCursor(EditorKey::Right),
        (KeyCode::PageUp, _) => Command::PageUp,
        (KeyCode::PageDown, _) => Command::PageDown,
        _ => Command::Unknown,
    }
}

/// What a key means to a prompt. Escape calls it off and Enter alone
/// accepts; Backspace, and Control with `h`, erase; the arrows left and up
/// go back, right and down go forth; a character alone or with Shift is
/// typed.
pub open spec fn prompt_input(key: KeyEvent) -> PromptInput {
    match (key.code, key.modifiers) {
        (KeyCode::Esc, _) => PromptInput::Cancel,
        (KeyCode::Backspace, _) => PromptInput::Erase,
        (KeyCode::Char('h'), KeyModifiers::Control) => PromptInput::Erase,
        (KeyCode::Enter, KeyModifiers::Plain) => PromptInput::Accept,
        (KeyCode::Left, _) => PromptInput::Back,
        (KeyCode::Up, _) => PromptInput::Back,
        (KeyCode::Right, _) => PromptInput::Forth,
        (KeyCode::Down, _) => PromptInput::Forth,
        (KeyCode::Char(c), KeyModifiers::Plain) => PromptInput::Type(c),
        (KeyCode::Char(c), KeyModifiers::Shift) => PromptInput::Type(c),
        _ => PromptInput::Ignore,
    }
}

/// What a key means to a prompt.
pub fn decode_prompt(key: KeyEvent) -> (input: PromptInput)
    ensures
        input == prompt_input(key),
{
    match (key.code, key.modifiers) {
        (KeyCode::Esc, _) => PromptInput::Cancel,
        (KeyCode::Backspace, _) => PromptInput::Erase,
        (KeyCode::Char('h'), KeyModifiers::Control) => PromptInput::Erase,
        (KeyCode::Enter, KeyModifiers::Plain) => PromptInput::Accept,
        (KeyCode::Left, _) => PromptInput::Back,
        (KeyCode::Up, _) => PromptInput::Back,
        (KeyCode::Right, _) => PromptInput::Forth,
        (KeyCode::Down, _) => PromptInput::Forth,
        (KeyCode::Char(c), KeyModifiers::Plain) => PromptInput::Type(c),
        (KeyCode::Char(c), KeyModifiers::Shift) => PromptInput::Type(c),
        _ => PromptInput::Ignore,
    }
}

/// What the search is told about a key of its prompt.
pub open spec fn search_event(input: PromptInput) -> Option<PromptKey> {
    match input {
        PromptInput::Cancel => Some(PromptKey::Escape),
        PromptInput::Accept => Some(PromptKey::Enter),
        PromptInput::Back => Some(PromptKey::Previous),
        PromptInput::Forth => Some(PromptKey::Next),
        PromptInput::Type(c) => Some(PromptKey::Char(c)),
        _ => None,
    }
}

/// The text of a prompt after a key.
pub open spec fn prompt_text(text: Seq<char>, input: PromptInput) -> Seq<char> {
    match input {
        PromptInput::Erase => if text.len() > 0 {
            text.drop_last()
        } else {
            text
        },
        PromptInput::Type(c) => text.push(c),
        _ => text,
    }
}

/// The warning shown when quitting is asked for with changes unsaved,
/// `times` being how often it must still be asked for.
pub open spec fn quit_warning(times: nat) -> Seq<char> {
    "Warning!!!  File has unsaved changes.Press Ctrl-Q "@ + decimal(times) + " more time to quit"@
}

impl Editor {
    /// The left part of the status bar: the file's name, the number of
    /// lines, and whether the document has changed.
    pub open spec fn status_left(&self) -> Seq<char> {
        (if self.filename@.len() == 0 { "[No Name]"@ } else { self.filename@ }) + " - "@ + decimal(
            self.rows@.len(),
        ) + " lines "@ + (if self.dirty { "[Modified]"@ } else { Seq::empty() })
    }

    /// The right part of the status bar: the file type, the cursor's row
    /// and the number of lines.
    pub open spec fn status_right(&self) -> Seq<char> {
        (if self.syntax_ind is Some && self.syntax_ind->0 < self.hldb@.len() {
            self.hldb@[self.syntax_ind->0 as int].filetype@
        } else {
            "No FileType"@
        }) + " | "@ + decimal(self.cursor.y as nat) + "/"@ + decimal(self.rows@.len())
    }

    /// Whether the message has been shown long enough at the time `now`.
    pub open spec fn message_expired(&self, now: u64) -> bool {
        self.status_msg@.len() > 0 && now > self.status_time && now - self.status_time
            > MESSAGE_MILLIS
    }

    /// Where the cursor is after `times` steps of `key`.
    pub open spec fn moved_times(self, key: EditorKey, times: nat) -> Position
        decreases times,
    {
        if times == 0 {
            self.cursor
        } else {
            self.with_cursor(self.moved_times(key, (times - 1) as nat)).moved(key)
        }
    }

    /// Where a page up or down takes the cursor: to the window's first or
    /// last row, no further than the row after the document's last, and
    /// from there as many rows up or down as the window has.
    pub open spec fn paged(self, up: bool) -> Position {
        let n = self.rows@.len();
        let edge = if up { self.rowoff as int } else { self.rowoff + self.screen.height - 1 };
        let y = if edge < n { edge } else { n as int };
        self.with_cursor(Position { x: self.cursor.x, y: y as usize }).moved_times(
            if up { EditorKey::Up } else { EditorKey::Down },
            self.screen.height as nat,
        )
    }

    /// What the key `key` makes of the editor at the time `now`, and what
    /// it asks of the caller.
    pub open spec fn after_key(&self, post: &Editor, key: KeyEvent, now: u64, request: Request) -> bool {
        match command_of(key) {
            Command::Quit => if self.dirty && self.quit_time > 0 {
                &&& request == Request::Continue
                &&& *post == (Editor {
                    status_msg: post.status_msg,
                    status_time: now,
                    quit_time: (self.quit_time - 1) as usize,
                    ..*self
                })
                &&& post.status_msg@ == quit_warning(self.quit_time as nat)
            } else {
                request == Request::Quit && *post == *self
            },
            Command::Save => request == Request::Save && *post == *self,
            Command::Find => request == Request::Find && *post == *self,
            Command::Noop => request == Request::Continue && *post == *self,
            Command::DeleteChar => request == Request::Continue && self.erased(post),
            Command::DeleteForward => request == Request::Continue && self.with_cursor(
                self.moved(EditorKey::Right),
            ).erased(post),
            Command::InsertChar(c) => request == Request::Continue && self.typed_into(post, c),
            Command::Split => request == Request::Continue && self.broke(post),
            Command::Home => request == Request::Continue && *post == self.with_cursor(
                Position {
                    x: if self.cursor.x <= self.row_len(0) { self.cursor.x } else { self.row_len(0) as usize },
                    y: 0,
                },
            ),
            Command::End => request == Request::Continue && *post == self.with_cursor(
                Position { x: self.row_len(self.cursor.y as int) as usize, y: self.cursor.y },
            ),
            Command::MoveCursor(direction) => request == Request::Continue && *post == self.with_cursor(
                self.moved(direction),
            ),
            Command::PageUp => request == Request::Continue && *post == self.with_cursor(
                self.paged(true),
            ),
            Command::PageDown => request == Request::Continue && *post == self.with_cursor(
                self.paged(false),
            ),
            Command::Unknown => {
                &&& request == Request::Continue
                &&& *post == (Editor { status_msg: post.status_msg, status_time: now, ..*self })
                &&& post.status_msg@ == "NOTHING"@
            },
        }
    }

    /// Shows `msg` from the time `now` on.
    pub fn set_status_msg(&mut self, msg: &str, now: u64)
        ensures
            *final(self) == (Editor {
                status_msg: final(self).status_msg,
                status_time: now,
                ..*old(self)
            }),
            final(self).status_msg@ == msg@,
    {
        self.status_time = now;
        self.status_msg = msg.to_owned();
    }

    /// Does what the key `key` asks for, at the time `now`, and says what
    /// is left for the caller to do.
    pub fn process_keypress(&mut self, key: KeyEvent, now: u64) -> (request: Request)
        requires
            old(self).wf(),
            old(self).cursor_ok(),
        ensures
            final(self).wf(),
            final(self).cursor_ok(),
            old(self).after_key(final(self), key, now, request),
    {
        match decode(key) {
            Command::Quit => {
                if self.dirty && self.quit_time > 0 {
                    let mut msg: Vec<char> = Vec::new();
                    push_str_chars(&mut msg, "Warning!!!  File has unsaved changes.Press Ctrl-Q ");
                    push_decimal(&mut msg, self.quit_time);
                    push_str_chars(&mut msg, " more time to quit");
                    let text = chars_to_string(&msg);
                    self.set_status_msg(text.as_str(), now);
                    self.quit_time -= 1;
                    return Request::Continue;
                } else {
                    return Request::Quit;
                }
            },
            Command::Save => {
                return Request::Save;
            },
            Command::Find => {
                return Request::Find;
            },
            Command::Noop => {},
            Command::DeleteChar => {
                self.del_char();
            },
            Command::DeleteForward => {
                self.move_cursor(EditorKey::Right);
                self.del_char();
            },
            Command::InsertChar(c) => {
                self.insert_char(c);
            },
            Command::Split => {
                self.insert_newline();
            },
            Command::Home => {
                self.move_to_home();
            },
            Command::End => {
                self.move_to_end();
            },
            Command::MoveCursor(direction) => {
                self.move_cursor(direction);
            },
            Command::PageUp => {
                self.page(true);
            },
            Command::PageDown => {
                self.page(false);
            },
            Command::Unknown => {
                self.set_status_msg("NOTHING", now);
            },
        }
        Request::Continue
    }

    /// Moves the cursor a page up or down.
    fn page(&mut self, up: bool)
        requires
            old(self).wf(),
            old(self).cursor_ok(),
        ensures
            *final(self) == old(self).with_cursor(old(self).paged(up)),
            final(self).cursor_ok(),
    {
        let n: usize = self.rows.len();
        let height: usize = self.screen.height;
        if up {
            self.cursor.y = if self.rowoff < n { self.rowoff } else { n };
        } else {
            self.cursor.y = if self.rowoff < n && height - 1 < n - self.rowoff {
                self.rowoff + (height - 1)
            } else {
                n
            };
        }
        let key = if up { EditorKey::Up } else { EditorKey::Down };
        let ghost start = *self;
        let mut k: usize = 0;
        while k < height
            invariant
                k <= height,
                self.cursor.y <= self.rows@.len(),
                *self == start.with_cursor(start.moved_times(key, k as nat)),
            decreases height - k,
        {
            self.move_cursor(key);
            k += 1;
        }
    }

    /// Shows the text of a prompt, after what the prompt asks for.
    pub fn prompt_message(&mut self, prompt_str: &str, buffer: &Vec<char>, now: u64)
        ensures
            *final(self) == (Editor {
                status_msg: final(self).status_msg,
                status_time: now,
                ..*old(self)
            }),
            final(self).status_msg@ == prompt_str@ + ": "@ + buffer@,
    {
        let mut msg: Vec<char> = Vec::new();
        push_str_chars(&mut msg, prompt_str);
        push_str_chars(&mut msg, ": ");
        push_all(&mut msg, buffer);
        let text = chars_to_string(&msg);
        self.set_status_msg(text.as_str(), now);
    }

    /// Takes the key `key` into a prompt whose text is `buffer`, at the
    /// time `now`. The text changes as the key asks. A prompt that is
    /// called off or accepted clears the message. In a search prompt
    /// (`searching`) the search is told of every key but those that erase
    /// or mean nothing, with the text as the query.
    pub fn prompt(&mut self, buffer: &mut Vec<char>, key: KeyEvent, searching: bool, now: u64) -> (state:
        PromptState)
        requires
            old(self).wf(),
        ensures
            final(self).wf(),
            old(self).cursor_ok() ==> final(self).cursor_ok(),
            final(buffer)@ == prompt_text(old(buffer)@, prompt_input(key)),
            state == match prompt_input(key) {
                PromptInput::Cancel => PromptState::Cancelled,
                PromptInput::Accept => PromptState::Accepted,
                _ => PromptState::Open,
            },
            ({
                let cleared = Editor { status_msg: final(self).status_msg, status_time: now, ..*old(self) };
                let before = if state == PromptState::Open { *old(self) } else { cleared };
                &&& state != PromptState::Open ==> final(self).status_msg@.len() == 0
                &&& if searching && search_event(prompt_input(key)) is Some {
                    before.found(final(self), final(buffer)@, search_event(prompt_input(key))->0)
                } else {
                    *final(self) == before
                }
            }),
    {
        let input = decode_prompt(key);
        let (state, event) = match input {
            PromptInput::Cancel => (PromptState::Cancelled, Some(PromptKey::Escape)),
            PromptInput::Accept => (PromptState::Accepted, Some(PromptKey::Enter)),
            PromptInput::Erase => {
                buffer.pop();
                assert(buffer@ =~= prompt_text(old(buffer)@, input));
                (PromptState::Open, None)
            },
            PromptInput::Back => (PromptState::Open, Some(PromptKey::Previous)),
            PromptInput::Forth => (PromptState::Open, Some(PromptKey::Next)),
            PromptInput::Type(c) => {
                buffer.push(c);
                (PromptState::Open, Some(PromptKey::Char(c)))
            },
            PromptInput::Ignore => (PromptState::Open, None),
        };
        match state {
            PromptState::Open => {},
            _ => {
                proof {
                    reveal_strlit("");
                }
                self.set_status_msg("", now);
            },
        }
        if searching {
            match event {
                Some(e) => {
                    let query = chars_to_string(buffer);
                    self.find_callback(query.as_str(), e);
                },
                None => {},
            }
        }
        state
    }

    /// Notes where the window and the cursor stand, before a search.
    pub fn find_origin(&self) -> (origin: SearchOrigin)
        ensures
            origin == (SearchOrigin { cursor: self.cursor, coloff: self.coloff, rowoff: self.rowoff }),
    {
        SearchOrigin { cursor: self.cursor, coloff: self.coloff, rowoff: self.rowoff }
    }

    /// Ends a search: one that was called off puts the window and the
    /// cursor back where they stood when it began.
    pub fn find(&mut self, origin: SearchOrigin, state: PromptState)
        ensures
            *final(self) == if state == PromptState::Cancelled {
                Editor {
                    cursor: origin.cursor,
                    coloff: origin.coloff,
                    rowoff: origin.rowoff,
                    ..*old(self)
                }
            } else {
                *old(self)
            },
    {
        if state == PromptState::Cancelled {
            self.cursor = origin.cursor;
            self.coloff = origin.coloff;
            self.rowoff = origin.rowoff;
        }
    }

    /// Ends a session: quitting has to be asked for as often again as at
    /// the start.
    pub fn leave(&mut self)
        ensures
            *final(self) == (Editor { quit_time: KILO_QUIT_TIMES, ..*old(self) }),
    {
        self.quit_time = KILO_QUIT_TIMES;
    }

    /// Whether saving has to ask for a file name first: the file has none
    /// yet.
    pub fn needs_name(&self) -> (asks: bool)
        ensures
            asks == (self.filename@.len() == 0),
    {
        self.filename.as_str().unicode_len() == 0
    }

    /// Takes the answer of the prompt for a file name. With a name the
    /// file is called so and the syntax is chosen anew: where the choice
    /// changes, every row's classes are those of its rendering under the
    /// new rules, and nothing else of it changes. Without a name the
    /// saving is called off and the result is `false`.
    pub fn save_as(&mut self, name: Option<String>, now: u64) -> (named: bool)
        requires
            old(self).wf(),
        ensures
            final(self).wf(),
            named == name is Some,
            match name {
                None => {
                    &&& *final(self) == (Editor {
                        status_msg: final(self).status_msg,
                        status_time: now,
                        ..*old(self)
                    })
                    &&& final(self).status_msg@ == "Save aborted"@
                },
                Some(n) => {
                    &&& final(self).filename == n
                    &&& final(self).syntax_ind == chosen_syntax(old(self).hldb@, n@)
                    &&& *final(self) == (Editor {
                        filename: n,
                        rows: final(self).rows,
                        syntax_ind: final(self).syntax_ind,
                        ..*old(self)
                    })
                    &&& final(self).rows@.len() == old(self).rows@.len()
                    &&& final(self).lines() == old(self).lines()
                    &&& final(self).syntax_ind != old(self).syntax_ind ==> forall|i: int|
                        0 <= i < final(self).rows@.len() ==> {
                            &&& (#[trigger] final(self).rows@[i])@ == reclassified(
                                old(self).rows@[i]@,
                                final(self).rules(),
                            )
                            &&& final(self).rows@[i].saved_hl == old(self).rows@[i].saved_hl
                            &&& final(self).rows@[i].hl@ == highlight_of(
                                final(self).rows@[i].render@,
                                final(self).rules(),
                            )
                        }
                    &&& final(self).syntax_ind == old(self).syntax_ind ==> final(self).rows == old(
                        self,
                    ).rows
                },
            },
    {
        match name {
            None => {
                self.set_status_msg("Save aborted", now);
                false
            },
            Some(n) => {
                self.filename = n;
                self.select_syntax_highlight();
                assert(self.lines() =~= old(self).lines());
                true
            },
        }
    }

    /// Takes the outcome of writing the document to its file: the number
    /// of bytes written, or what the system says went wrong. After a write
    /// that went well the document counts as unchanged; either way a
    /// message says how it went.
    pub fn save(&mut self, written: Result<usize, String>, now: u64)
        ensures
            *final(self) == (Editor {
                status_msg: final(self).status_msg,
                status_time: now,
                dirty: if written is Ok { false } else { old(self).dirty },
                ..*old(self)
            }),
            final(self).status_msg@ == match written {
                Ok(len) => decimal(len as nat) + " bytes written to disk"@,
                Err(why) => "Can;t save I/O error: "@ + why@,
            },
    {
        let mut msg: Vec<char> = Vec::new();
        match written {
            Ok(len) => {
                push_decimal(&mut msg, len);
                push_str_chars(&mut msg, " bytes written to disk");
                self.dirty = false;
            },
            Err(why) => {
                push_str_chars(&mut msg, "Can;t save I/O error: ");
                push_str_chars(&mut msg, why.as_str());
            },
        }
        let text = chars_to_string(&msg);
        self.set_status_msg(text.as_str(), now);
    }

    /// Scrolls the window to the cursor, drops a message that has been
    /// shown long enough at the time `now`, and hands back the steps that
    /// paint the terminal: wiping it, the text area, the status bar and
    /// the message.
    pub fn refresh_screen(&mut self, now: u64) -> (out: Vec<DrawCommand>)
        requires
            old(self).wf(),
        ensures
            final(self).wf(),
            old(self).cursor_ok() ==> final(self).cursor_ok(),
            old(self).viewed(
                &(Editor { status_msg: old(self).status_msg, ..*final(self) }),
            ),
            final(self).status_msg@ == if old(self).message_expired(now) {
                Seq::empty()
            } else {
                old(self).status_msg@
            },
            final(self).rowoff <= final(self).cursor.y < final(self).rowoff + final(self).screen.height,
            final(self).coloff <= final(self).render_x < final(self).coloff + final(self).screen.width,
            out@ == seq![DrawCommand::Clear, DrawCommand::MoveTo(0, 0)] + frame_commands(
                final(self).row_views(),
                final(self).rowoff as nat,
                final(self).coloff as nat,
                final(self).screen.width as nat,
                final(self).screen.height as nat,
                final(self).screen.height as nat,
            ) + status_bar_commands(
                final(self).status_left(),
                final(self).status_right(),
                final(self).status_msg@,
                final(self).screen.width as nat,
                final(self).screen.height as nat,
            ),
    {
        self.scroll();
        let mut out = self.screen.clear();
        let mut frame = self.screen.draw_row(&self.rows, self.rowoff, self.coloff);
        out.append(&mut frame);
        if self.status_msg.as_str().unicode_len() > 0 && now > self.status_time && now
            - self.status_time > MESSAGE_MILLIS {
            self.status_msg = String::new();
        }
        let mut left: Vec<char> = Vec::new();
        if self.filename.as_str().unicode_len() == 0 {
            push_str_chars(&mut left, "[No Name]");
        } else {
            push_str_chars(&mut left, self.filename.as_str());
        }
        push_str_chars(&mut left, " - ");
        push_decimal(&mut left, self.rows.len());
        push_str_chars(&mut left, " lines ");
        if self.dirty {
            push_str_chars(&mut left, "[Modified]");
        }
        let mut right: Vec<char> = Vec::new();
        match self.get_syntax_data() {
            Some(syntax) => {
                push_str_chars(&mut right, syntax.filetype.as_str());
            },
            None => {
                push_str_chars(&mut right, "No FileType");
            },
        }
        push_str_chars(&mut right, " | ");
        push_decimal(&mut right, self.cursor.y);
        push_str_chars(&mut right, "/");
        push_decimal(&mut right, self.rows.len());
        assert(left@ =~= self.status_left());
        assert(right@ =~= self.status_right());
        let left_text = chars_to_string(&left);
        let right_text = chars_to_string(&right);
        let mut bar = self.screen.draw_status_bar(
            left_text.as_str(),
            right_text.as_str(),
            self.status_msg.as_str(),
        );
        out.append(&mut bar);
        out
    }
}

} // verus!
