use kilo_ed::control::{decode, decode_prompt, Command, PromptInput, PromptState, Request};
use kilo_ed::editor::{Editor, EditorKey};
use kilo_ed::keyboard::{Event, KeyCode, KeyEvent, KeyModifiers, KeyRead, Keyboard};
use kilo_ed::row::Highlight;
use kilo_ed::screen::{DrawCommand, Screen};
use kilo_ed::{EditorResult, Position};

fn key(code: KeyCode) -> KeyEvent {
    KeyEvent { code, modifiers: KeyModifiers::Plain }
}

fn ctrl(c: char) -> KeyEvent {
    KeyEvent { code: KeyCode::Char(c), modifiers: KeyModifiers::Control }
}

fn editor(lines: &[&str]) -> Editor {
    let data: Vec<String> = lines.iter().map(|l| l.to_string()).collect();
    Editor::build(&data, "test.c".to_string(), Screen::new(40, 7), 0)
}

fn lines(editor: &Editor) -> Vec<String> {
    editor.rows.iter().map(|r| r.chars.iter().collect()).collect()
}

fn at(x: usize, y: usize) -> Position {
    Position { x, y }
}

#[test]
fn keyboard_passes_keys_on() {
    let k = key(KeyCode::Enter);
    assert_eq!(Keyboard.read_key(Some(Event::Key(k))), KeyRead::Key(k));
    assert_eq!(Keyboard.read_key(Some(Event::Other)), KeyRead::Again);
    assert_eq!(Keyboard.read_key(None), KeyRead::Failed(EditorResult::KeyReadFail));
}

#[test]
fn keys_are_decoded() {
    assert_eq!(decode(ctrl('q')), Command::Quit);
    assert_eq!(decode(ctrl('s')), Command::Save);
    assert_eq!(decode(ctrl('f')), Command::Find);
    assert_eq!(decode(ctrl('l')), Command::Noop);
    assert_eq!(decode(ctrl('h')), Command::DeleteChar);
    assert_eq!(decode(ctrl('x')), Command::Unknown);
    assert_eq!(decode(key(KeyCode::Char('q'))), Command::InsertChar('q'));
    assert_eq!(decode(key(KeyCode::Tab)), Command::InsertChar('\t'));
    let shifted = KeyEvent { code: KeyCode::Char('Q'), modifiers: KeyModifiers::Shift };
    assert_eq!(decode(shifted), Command::InsertChar('Q'));
    let alt = KeyEvent { code: KeyCode::Char('q'), modifiers: KeyModifiers::Other };
    assert_eq!(decode(alt), Command::Unknown);
    let shift_tab = KeyEvent { code: KeyCode::Tab, modifiers: KeyModifiers::Shift };
    assert_eq!(decode(shift_tab), Command::Unknown);
    let ctrl_left = KeyEvent { code: KeyCode::Left, modifiers: KeyModifiers::Control };
    assert_eq!(decode(ctrl_left), Command::MoveCursor(EditorKey::Left));
    assert_eq!(decode(key(KeyCode::Delete)), Command::DeleteForward);
    assert_eq!(decode(key(KeyCode::Backspace)), Command::DeleteChar);
    assert_eq!(decode(key(KeyCode::Enter)), Command::Split);
    assert_eq!(decode(key(KeyCode::Esc)), Command::Noop);
    assert_eq!(decode(key(KeyCode::Home)), Command::Home);
    assert_eq!(decode(key(KeyCode::End)), Command::End);
    assert_eq!(decode(key(KeyCode::Up)), Command::MoveCursor(EditorKey::Up));
    assert_eq!(decode(key(KeyCode::Down)), Command::MoveCursor(EditorKey::Down));
    assert_eq!(decode(key(KeyCode::Right)), Command::MoveCursor(EditorKey::Right));
    assert_eq!(decode(key(KeyCode::PageUp)), Command::PageUp);
    assert_eq!(decode(key(KeyCode::PageDown)), Command::PageDown);
    assert_eq!(decode(key(KeyCode::Other)), Command::Unknown);
}

#[test]
fn prompt_keys_are_decoded() {
    assert_eq!(decode_prompt(key(KeyCode::Esc)), PromptInput::Cancel);
    assert_eq!(decode_prompt(key(KeyCode::Enter)), PromptInput::Accept);
    let shift_enter = KeyEvent { code: KeyCode::Enter, modifiers: KeyModifiers::Shift };
    assert_eq!(decode_prompt(shift_enter), PromptInput::Ignore);
    assert_eq!(decode_prompt(key(KeyCode::Backspace)), PromptInput::Erase);
    assert_eq!(decode_prompt(ctrl('h')), PromptInput::Erase);
    assert_eq!(decode_prompt(ctrl('a')), PromptInput::Ignore);
    assert_eq!(decode_prompt(key(KeyCode::Left)), PromptInput::Back);
    assert_eq!(decode_prompt(key(KeyCode::Up)), PromptInput::Back);
    assert_eq!(decode_prompt(key(KeyCode::Right)), PromptInput::Forth);
    assert_eq!(decode_prompt(key(KeyCode::Down)), PromptInput::Forth);
    assert_eq!(decode_prompt(key(KeyCode::Char('h'))), PromptInput::Type('h'));
    assert_eq!(decode_prompt(key(KeyCode::Tab)), PromptInput::Ignore);
}

#[test]
fn typing_keys_edit_the_document() {
    let mut e = Editor::new(Screen::new(40, 7), 0);
    for k in [
        key(KeyCode::Char('a')),
        key(KeyCode::Char('b')),
        key(KeyCode::Enter),
        key(KeyCode::Tab),
        key(KeyCode::Char('c')),
        key(KeyCode::Backspace),
        ctrl('h'),
        key(KeyCode::Backspace),
        key(KeyCode::Char('!')),
        key(KeyCode::Left),
        key(KeyCode::Left),
        key(KeyCode::Delete),
        ctrl('l'),
        key(KeyCode::Esc),
    ] {
        assert_eq!(e.process_keypress(k, 1), Request::Continue);
    }
    assert_eq!(lines(&e), vec!["a!"]);
    assert_eq!(e.cursor, at(1, 0));
    assert!(e.dirty);
    assert_eq!(e.status_msg, "HELP: Ctrl-S = Save | Ctrl-Q = Quit");
}

#[test]
fn delete_takes_the_character_under_the_cursor() {
    let mut e = editor(&["ab", "cd"]);
    e.process_keypress(key(KeyCode::Delete), 0);
    assert_eq!(lines(&e), vec!["b", "cd"]);
    assert_eq!(e.cursor, at(0, 0));
    e.process_keypress(key(KeyCode::End), 0);
    e.process_keypress(key(KeyCode::Delete), 0);
    assert_eq!(lines(&e), vec!["bcd"]);
    assert_eq!(e.cursor, at(1, 0));
}

#[test]
fn quit_needs_asking_again_while_dirty() {
    let mut e = editor(&["a"]);
    assert_eq!(e.process_keypress(ctrl('q'), 3), Request::Quit);
    e.process_keypress(key(KeyCode::Char('x')), 3);
    assert_eq!(e.process_keypress(ctrl('q'), 4), Request::Continue);
    assert_eq!(
        e.status_msg,
        "Warning!!!  File has unsaved changes.Press Ctrl-Q 3 more time to quit"
    );
    assert_eq!(e.status_time, 4);
    assert_eq!(e.quit_time, 2);
    assert_eq!(e.process_keypress(ctrl('q'), 5), Request::Continue);
    assert_eq!(e.process_keypress(ctrl('q'), 6), Request::Continue);
    assert_eq!(
        e.status_msg,
        "Warning!!!  File has unsaved changes.Press Ctrl-Q 1 more time to quit"
    );
    assert_eq!(e.quit_time, 0);
    assert_eq!(e.process_keypress(ctrl('q'), 7), Request::Quit);
    e.leave();
    assert_eq!(e.quit_time, 3);
    assert!(e.dirty);
}

#[test]
fn save_and_find_are_left_to_the_caller() {
    let mut e = editor(&["a"]);
    assert_eq!(e.process_keypress(ctrl('s'), 0), Request::Save);
    assert_eq!(e.process_keypress(ctrl('f'), 0), Request::Find);
    assert!(!e.dirty);
    assert_eq!(e.process_keypress(key(KeyCode::Other), 9), Request::Continue);
    assert_eq!(e.status_msg, "NOTHING");
    assert_eq!(e.status_time, 9);
}

#[test]
fn paging_moves_by_the_window() {
    let many: Vec<String> = (0..30).map(|i| "x".repeat(i)).collect();
    let mut e = Editor::build(&many, String::new(), Screen::new(40, 7), 0);
    e.cursor = at(9, 12);
    e.rowoff = 10;
    e.process_keypress(key(KeyCode::PageDown), 0);
    assert_eq!(e.cursor, at(9, 19));
    e.process_keypress(key(KeyCode::PageUp), 0);
    assert_eq!(e.cursor, at(5, 5));
    e.rowoff = 3;
    e.process_keypress(key(KeyCode::PageUp), 0);
    assert_eq!(e.cursor, at(0, 0));
    e.rowoff = 27;
    e.process_keypress(key(KeyCode::PageDown), 0);
    assert_eq!(e.cursor, at(0, 30));
    e.rowoff = 500;
    e.process_keypress(key(KeyCode::PageUp), 0);
    assert_eq!(e.cursor, at(0, 25));
    e.process_keypress(key(KeyCode::Home), 0);
    assert_eq!(e.cursor, at(0, 0));
}

#[test]
fn prompt_collects_text() {
    let mut e = editor(&["a"]);
    let mut buffer = Vec::new();
    e.prompt_message("Save as", &buffer, 2);
    assert_eq!(e.status_msg, "Save as: ");
    assert_eq!(e.status_time, 2);
    for c in "x.cc".chars() {
        assert_eq!(e.prompt(&mut buffer, key(KeyCode::Char(c)), false, 2), PromptState::Open);
    }
    assert_eq!(e.prompt(&mut buffer, key(KeyCode::Backspace), false, 2), PromptState::Open);
    assert_eq!(e.prompt(&mut buffer, key(KeyCode::Left), false, 2), PromptState::Open);
    assert_eq!(e.prompt(&mut buffer, key(KeyCode::Tab), false, 2), PromptState::Open);
    e.prompt_message("Save as", &buffer, 3);
    assert_eq!(e.status_msg, "Save as: x.c");
    assert_eq!(e.prompt(&mut buffer, key(KeyCode::Enter), false, 4), PromptState::Accepted);
    assert_eq!(buffer, vec!['x', '.', 'c']);
    assert_eq!(e.status_msg, "");
    assert_eq!(e.status_time, 4);
    assert_eq!(e.cursor, at(0, 0));
    let mut empty = Vec::new();
    assert_eq!(e.prompt(&mut empty, key(KeyCode::Backspace), false, 5), PromptState::Open);
    assert!(empty.is_empty());
    assert_eq!(e.prompt(&mut empty, key(KeyCode::Esc), false, 5), PromptState::Cancelled);
}

#[test]
fn search_prompt_finds_while_typing() {
    let mut e = editor(&["foo", "bar", "baz"]);
    let origin = e.find_origin();
    let mut buffer = Vec::new();
    for c in "ba".chars() {
        e.prompt(&mut buffer, key(KeyCode::Char(c)), true, 0);
    }
    assert_eq!(e.cursor, at(0, 1));
    assert_eq!(e.rows[1].hl, vec![Highlight::Match, Highlight::Match, Highlight::Normal]);
    e.prompt(&mut buffer, key(KeyCode::Right), true, 0);
    assert_eq!(e.cursor, at(0, 2));
    e.prompt(&mut buffer, key(KeyCode::Up), true, 0);
    assert_eq!(e.cursor, at(0, 1));
    e.prompt(&mut buffer, key(KeyCode::Char('r')), true, 0);
    assert_eq!(e.cursor, at(0, 1));
    assert_eq!(e.rows[1].hl, vec![Highlight::Match; 3]);
    e.prompt(&mut buffer, key(KeyCode::Down), true, 0);
    assert_eq!(e.cursor, at(0, 1));
    assert_eq!(e.last_match, Some(1));
    let state = e.prompt(&mut buffer, key(KeyCode::Enter), true, 0);
    assert_eq!(state, PromptState::Accepted);
    assert_eq!(e.rows[1].hl, vec![Highlight::Normal; 3]);
    assert_eq!(e.last_match, None);
    e.find(origin, state);
    assert_eq!(e.cursor, at(0, 1));
    assert_eq!(e.rowoff, 3);
}

#[test]
fn cancelled_search_goes_back() {
    let mut e = editor(&["foo", "bar", "baz"]);
    e.cursor = at(2, 0);
    e.coloff = 1;
    let origin = e.find_origin();
    let mut buffer = Vec::new();
    e.prompt(&mut buffer, key(KeyCode::Char('z')), true, 0);
    assert_eq!(e.cursor, at(2, 2));
    assert_eq!(e.rowoff, 3);
    let state = e.prompt(&mut buffer, key(KeyCode::Esc), true, 0);
    assert_eq!(state, PromptState::Cancelled);
    assert_eq!(e.rows[2].hl, vec![Highlight::Normal; 3]);
    e.find(origin, state);
    assert_eq!(e.cursor, at(2, 0));
    assert_eq!((e.rowoff, e.coloff), (0, 1));
}

#[test]
fn saving_reports_how_it_went() {
    let mut e = Editor::new(Screen::new(40, 7), 0);
    e.process_keypress(key(KeyCode::Char('1')), 0);
    assert!(e.needs_name());
    assert!(!e.save_as(None, 1));
    assert!(e.needs_name());
    assert_eq!(e.status_msg, "Save aborted");
    assert_eq!(e.filename, "");
    assert!(e.save_as(Some("n.c".to_string()), 2));
    assert_eq!(e.filename, "n.c");
    assert!(!e.needs_name());
    assert_eq!(e.syntax_ind, Some(0));
    assert_eq!(e.rows[0].hl, vec![Highlight::Number]);
    assert!(e.dirty);
    e.save(Err("No space left on device".to_string()), 3);
    assert_eq!(e.status_msg, "Can;t save I/O error: No space left on device");
    assert!(e.dirty);
    e.save(Ok(2), 4);
    assert_eq!(e.status_msg, "2 bytes written to disk");
    assert_eq!(e.status_time, 4);
    assert!(!e.dirty);
}

#[test]
fn refresh_paints_the_frame() {
    let mut e = editor(&["1"]);
    e.cursor = at(1, 0);
    e.status_msg = "hi".to_string();
    let out = e.refresh_screen(5);
    assert_eq!(e.status_msg, "hi");
    assert_eq!((e.rowoff, e.coloff, e.render_x), (0, 0, 1));
    let mut want = vec![
        DrawCommand::Clear,
        DrawCommand::MoveTo(0, 0),
        DrawCommand::MoveTo(0, 0),
        DrawCommand::SetForeground(kilo_ed::row::Color::Red),
        DrawCommand::Print('1'),
        DrawCommand::SetForeground(kilo_ed::row::Color::Reset),
    ];
    for row in 1..5 {
        want.push(DrawCommand::MoveTo(0, row));
        want.push(DrawCommand::Print('~'));
    }
    want.push(DrawCommand::MoveTo(0, 5));
    want.push(DrawCommand::Reverse);
    want.extend("test.c - 1 lines                 c | 0/1".chars().map(DrawCommand::Print));
    want.push(DrawCommand::MoveTo(0, 6));
    want.extend(format!("{:40}", "hi").chars().map(DrawCommand::Print));
    want.push(DrawCommand::ResetAttributes);
    assert_eq!(out, want);
    assert_eq!(e.screen.move_to(&e.cursor, e.render_x, e.rowoff, e.coloff), DrawCommand::MoveTo(1, 0));
}

#[test]
fn message_expires_after_five_seconds() {
    let mut e = Editor::new(Screen::new(40, 7), 10_000);
    e.refresh_screen(15_000);
    assert_eq!(e.status_msg, "HELP: Ctrl-S = Save | Ctrl-Q = Quit");
    e.refresh_screen(9_000);
    assert_eq!(e.status_msg, "HELP: Ctrl-S = Save | Ctrl-Q = Quit");
    let out = e.refresh_screen(15_001);
    assert_eq!(e.status_msg, "");
    let bar: String = out[out.len() - 83..]
        .iter()
        .filter_map(|c| match c {
            DrawCommand::Print(c) => Some(*c),
            _ => None,
        })
        .collect();
    assert_eq!(bar, format!("{:<23}{:>17}{:40}", "[No Name] - 0 lines ", "No FileType | 0/0", ""));
    e.process_keypress(key(KeyCode::Char('x')), 20_000);
    let out = e.refresh_screen(20_000);
    let bar: String = out[out.len() - 83..]
        .iter()
        .filter_map(|c| match c {
            DrawCommand::Print(c) => Some(*c),
            _ => None,
        })
        .collect();
    assert_eq!(
        bar,
        format!("{:<40}{:40}", "[No Name] - 1 lines [Modified]", "")
    );
}
