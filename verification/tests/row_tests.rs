use kilo_ed::editor_syntax::highlightflags;
use kilo_ed::editor_syntax::{EditorSyntax, Keyword};
use kilo_ed::row::{is_separator, Color, Highlight, Row};
use kilo_ed::text::{chars_to_string, find, matches_at, str_chars};

fn text(chars: &[char]) -> String {
    chars.iter().collect()
}

fn c_syntax() -> EditorSyntax {
    EditorSyntax::new().remove(0)
}

fn keyword_syntax() -> EditorSyntax {
    EditorSyntax {
        filetype: "c".to_string(),
        filematch: vec!["c".to_string()],
        singleline_comment_start: Some("//".to_string()),
        keywords: vec![
            Keyword::Basic("if".to_string()),
            Keyword::Type("int".to_string()),
            Keyword::Basic("".to_string()),
        ],
        flags: highlightflags::NUMBERS | highlightflags::STRINGS,
    }
}

const N: Highlight = Highlight::Normal;
const D: Highlight = Highlight::Number;
const S: Highlight = Highlight::String;
const C: Highlight = Highlight::Comment;
const K1: Highlight = Highlight::Keyword1;
const K2: Highlight = Highlight::Keyword2;
const M: Highlight = Highlight::Match;

#[test]
fn builtin_syntax_is_c() {
    let db = EditorSyntax::new();
    assert_eq!(db.len(), 1);
    assert_eq!(db[0].filetype, "c");
    assert_eq!(db[0].filematch, vec!["c", ".h", ".cpp"]);
    assert_eq!(db[0].singleline_comment_start.as_deref(), Some("//"));
    assert!(db[0].keywords.is_empty());
    assert_eq!(db[0].flags, 3);
}

#[test]
fn string_conversions_keep_every_character() {
    let chars = str_chars("héllo\t!");
    assert_eq!(chars, vec!['h', 'é', 'l', 'l', 'o', '\t', '!']);
    assert_eq!(chars_to_string(&chars), "héllo\t!");
    assert_eq!(chars_to_string(&Vec::new()), "");
}

#[test]
fn find_gives_first_occurrence() {
    let hay = str_chars("abcabc");
    assert_eq!(find(&hay, &str_chars("bc")), Some(1));
    assert_eq!(find(&hay, &str_chars("abcabc")), Some(0));
    assert_eq!(find(&hay, &str_chars("")), Some(0));
    assert_eq!(find(&hay, &str_chars("cb")), None);
    assert_eq!(find(&hay, &str_chars("abcabcd")), None);
    assert_eq!(find(&Vec::new(), &str_chars("")), Some(0));
    assert!(matches_at(&hay, 3, &str_chars("abc")));
    assert!(!matches_at(&hay, 4, &str_chars("abc")));
    assert!(matches_at(&hay, 6, &str_chars("")));
    assert!(!matches_at(&hay, 7, &str_chars("")));
}

#[test]
fn separators_are_the_listed_characters() {
    for c in " ,.()+-/*=~%<>[]{};".chars() {
        assert!(is_separator(c));
    }
    for c in "a0_\"'\t:!&|#".chars() {
        assert!(!is_separator(c));
    }
}

#[test]
fn new_row_without_tabs_renders_itself() {
    let row = Row::new("hello".to_string(), None);
    assert_eq!(text(&row.chars), "hello");
    assert_eq!(text(&row.render), "hello");
    assert_eq!(row.hl, vec![N; 5]);
    assert!(row.saved_hl.is_none());
    assert_eq!(row.len(), 5);
    assert_eq!(row.render_len(), 5);
}

#[test]
fn empty_row_keeps_lengths_equal() {
    let mut row = Row::new(String::new(), Some(&c_syntax()));
    assert_eq!(row.render_len(), 0);
    assert_eq!(row.hl.len(), 0);
    assert!(!row.del_char(0, None));
    row.highlight_match(0, 3);
    assert_eq!(row.hl.len(), 0);
    row.reset_match();
    assert_eq!(row.hl.len(), 0);
    row.insert_char(5, 'x', None);
    assert_eq!(text(&row.render), "x");
    assert_eq!(row.hl.len(), 1);
}

#[test]
fn tab_expands_to_next_stop() {
    let row = Row::new("a\tb".to_string(), None);
    assert_eq!(text(&row.render), "a       b");
    let row = Row::new("\t".to_string(), None);
    assert_eq!(text(&row.render), "        ");
    let row = Row::new("1234567\t".to_string(), None);
    assert_eq!(text(&row.render), "1234567 ");
    let row = Row::new("12345678\tx".to_string(), None);
    assert_eq!(text(&row.render), "12345678        x");
    assert_eq!(text(&row.chars), "12345678\tx");
}

#[test]
fn cx_to_rx_counts_columns() {
    let row = Row::new("a\tb\t\tc".to_string(), None);
    assert_eq!(row.cx_to_rx(0), 0);
    assert_eq!(row.cx_to_rx(1), 1);
    assert_eq!(row.cx_to_rx(2), 8);
    assert_eq!(row.cx_to_rx(3), 9);
    assert_eq!(row.cx_to_rx(4), 16);
    assert_eq!(row.cx_to_rx(5), 24);
    assert_eq!(row.cx_to_rx(6), 25);
    assert_eq!(row.cx_to_rx(600), 25);
    assert_eq!(row.render_len(), 25);
}

#[test]
fn rx_to_cx_finds_the_character_shown() {
    let row = Row::new("a\tb\t\tc".to_string(), None);
    assert_eq!(row.rx_to_cx(0), 0);
    assert_eq!(row.rx_to_cx(1), 1);
    assert_eq!(row.rx_to_cx(7), 1);
    assert_eq!(row.rx_to_cx(8), 2);
    assert_eq!(row.rx_to_cx(9), 3);
    assert_eq!(row.rx_to_cx(16), 4);
    assert_eq!(row.rx_to_cx(24), 5);
    assert_eq!(row.rx_to_cx(25), 6);
    assert_eq!(row.rx_to_cx(1000), 6);
}

#[test]
fn column_round_trips() {
    let row = Row::new("a\tb\t\tc".to_string(), None);
    for cx in 0..=row.len() {
        assert_eq!(row.rx_to_cx(row.cx_to_rx(cx)), cx);
    }
    for rx in 0..40 {
        assert!(row.cx_to_rx(row.rx_to_cx(rx)) <= rx);
    }
    // Every column of a tab leads back to the tab's first column.
    assert_eq!(row.cx_to_rx(row.rx_to_cx(5)), 1);
    assert_eq!(row.cx_to_rx(row.rx_to_cx(1)), 1);
}

#[test]
fn insert_char_in_the_middle_and_past_the_end() {
    let mut row = Row::new("ac".to_string(), None);
    row.insert_char(1, 'b', None);
    assert_eq!(text(&row.chars), "abc");
    row.insert_char(0, '>', None);
    assert_eq!(text(&row.chars), ">abc");
    row.insert_char(99, '!', None);
    assert_eq!(text(&row.chars), ">abc!");
    row.insert_char(5, '\t', None);
    assert_eq!(text(&row.render), ">abc!   ");
    assert_eq!(row.hl.len(), row.render.len());
}

#[test]
fn del_char_out_of_bounds_is_refused() {
    let mut row = Row::new("abc".to_string(), None);
    assert!(!row.del_char(3, None));
    assert_eq!(text(&row.chars), "abc");
    assert!(row.del_char(1, None));
    assert_eq!(text(&row.chars), "ac");
    assert_eq!(text(&row.render), "ac");
    assert_eq!(row.hl.len(), 2);
}

#[test]
fn split_cuts_the_row() {
    let syntax = c_syntax();
    let mut row = Row::new("ab12".to_string(), Some(&syntax));
    let rest = row.split(2, Some(&syntax));
    assert_eq!(text(&row.chars), "ab");
    assert_eq!(text(&rest.chars), "12");
    assert_eq!(rest.hl, vec![D, D]);
    assert_eq!(row.hl, vec![N, N]);
    let rest = row.split(10, Some(&syntax));
    assert_eq!(text(&row.chars), "ab");
    assert_eq!(rest.len(), 0);
    let rest = row.split(0, Some(&syntax));
    assert_eq!(row.len(), 0);
    assert_eq!(text(&rest.chars), "ab");
}

#[test]
fn append_string_adds_at_the_end() {
    let mut row = Row::new("ab".to_string(), None);
    row.append_string("\tcd", None);
    assert_eq!(text(&row.chars), "ab\tcd");
    assert_eq!(text(&row.render), "ab      cd");
    assert_eq!(row.hl.len(), 10);
}

#[test]
fn numbers_and_comment_are_classified() {
    let syntax = c_syntax();
    let row = Row::new("foo(1,2);".to_string(), Some(&syntax));
    assert_eq!(row.hl, vec![N, N, N, N, D, N, D, N, N]);
    let row = Row::new("// bar".to_string(), Some(&syntax));
    assert_eq!(row.hl, vec![C; 6]);
}

#[test]
fn numbers_need_a_separator_before_them() {
    let syntax = c_syntax();
    let row = Row::new("a1 12.5 .5 1.".to_string(), Some(&syntax));
    assert_eq!(row.hl, vec![N, N, N, D, D, D, D, N, N, D, N, D, D]);
}

#[test]
fn strings_take_escapes_along() {
    let syntax = c_syntax();
    let row = Row::new("\"a\\\"b\" 1".to_string(), Some(&syntax));
    assert_eq!(row.hl, vec![S, S, S, S, S, S, N, D]);
    let row = Row::new("'x' \"y".to_string(), Some(&syntax));
    assert_eq!(row.hl, vec![S, S, S, N, S, S]);
    let row = Row::new("\"//\" // c".to_string(), Some(&syntax));
    assert_eq!(row.hl, vec![S, S, S, S, N, C, C, C, C]);
    let row = Row::new("\"a\\".to_string(), Some(&syntax));
    assert_eq!(row.hl, vec![S, S, S]);
}

#[test]
fn comment_ends_the_scan() {
    let syntax = c_syntax();
    let row = Row::new("1 // 2 \"x\"".to_string(), Some(&syntax));
    assert_eq!(row.hl, vec![D, N, C, C, C, C, C, C, C, C]);
}

#[test]
fn keywords_need_separators_around_them() {
    let syntax = keyword_syntax();
    let row = Row::new("if int x; iffy intx (int)".to_string(), Some(&syntax));
    assert_eq!(
        row.hl,
        vec![
            K1, K1, N, K2, K2, K2, N, N, N, N, N, N, N, N, N, N, N, N, N, N, N, K2, K2, K2, N
        ]
    );
    let row = Row::new("xif if".to_string(), Some(&syntax));
    assert_eq!(row.hl, vec![N, N, N, N, K1, K1]);
}

#[test]
fn flags_switch_classifiers_off() {
    let mut syntax = c_syntax();
    syntax.flags = highlightflags::NUMBERS;
    let row = Row::new("\"1\" 2".to_string(), Some(&syntax));
    assert_eq!(row.hl, vec![N, N, N, N, D]);
    syntax.flags = highlightflags::STRINGS;
    let row = Row::new("\"1\" 2".to_string(), Some(&syntax));
    assert_eq!(row.hl, vec![S, S, S, N, N]);
    syntax.flags = 0;
    syntax.singleline_comment_start = None;
    let row = Row::new("\"1\" // 2".to_string(), Some(&syntax));
    assert_eq!(row.hl, vec![N; 8]);
}

#[test]
fn update_syntax_follows_new_rules() {
    let syntax = c_syntax();
    let mut row = Row::new("1 // x".to_string(), None);
    assert_eq!(row.hl, vec![N; 6]);
    row.update_syntax(Some(&syntax));
    assert_eq!(row.hl, vec![D, N, C, C, C, C]);
}

#[test]
fn update_syntax_keeps_what_was_set_aside() {
    let syntax = c_syntax();
    let mut row = Row::new("1 // x".to_string(), Some(&syntax));
    row.highlight_match(0, 1);
    assert_eq!(row.hl, vec![M, N, C, C, C, C]);
    row.update_syntax(None);
    assert_eq!(row.hl, vec![N; 6]);
    assert_eq!(row.saved_hl, Some(vec![D, N, C, C, C, C]));
    assert_eq!(text(&row.chars), "1 // x");
    assert_eq!(text(&row.render), "1 // x");
    assert!(row.is_wf());
    row.update_syntax(Some(&syntax));
    assert_eq!(row.hl, vec![D, N, C, C, C, C]);
    assert_eq!(row.saved_hl, Some(vec![D, N, C, C, C, C]));
    row.reset_match();
    assert_eq!(row.hl, vec![D, N, C, C, C, C]);
    assert!(row.saved_hl.is_none());
    row.update_syntax(None);
    assert!(row.saved_hl.is_none());
}

#[test]
fn update_syntax_never_marks_a_match() {
    let syntax = keyword_syntax();
    let mut row = Row::new("if (x == 12) \"s\" // int".to_string(), Some(&syntax));
    row.highlight_match(0, 5);
    row.update_syntax(Some(&syntax));
    assert!(row.hl.iter().all(|h| *h != M));
    let mut plain = c_syntax();
    plain.flags = 0;
    plain.singleline_comment_start = None;
    row.update_syntax(Some(&plain));
    assert_eq!(row.hl, vec![N; row.render_len()]);
}

#[test]
fn rendering_anew_drops_what_was_set_aside() {
    let syntax = c_syntax();
    let mut row = Row::new("12".to_string(), Some(&syntax));
    row.highlight_match(0, 2);
    assert!(row.saved_hl.is_some());
    row.render_row(Some(&syntax));
    assert!(row.saved_hl.is_none());
    assert_eq!(row.hl, vec![D, D]);
    row.highlight_match(0, 1);
    row.insert_char(0, '\t', Some(&syntax));
    assert!(row.saved_hl.is_none());
    assert_eq!(row.hl.len(), row.render_len());
    row.reset_match();
    assert_eq!(row.hl.len(), 10);
    row.highlight_match(8, 1);
    row.append_string("3", Some(&syntax));
    assert!(row.saved_hl.is_none());
    row.highlight_match(8, 1);
    assert!(row.del_char(0, Some(&syntax)));
    assert!(row.saved_hl.is_none());
    row.highlight_match(0, 1);
    let rest = row.split(1, Some(&syntax));
    assert!(row.saved_hl.is_none());
    assert!(rest.saved_hl.is_none());
    assert_eq!(row.hl, vec![D]);
}

#[test]
fn match_is_marked_and_unmarked() {
    let syntax = c_syntax();
    let mut row = Row::new("ab 12 cd".to_string(), Some(&syntax));
    let before = row.hl.clone();
    row.highlight_match(2, 3);
    assert_eq!(row.hl, vec![N, N, M, M, M, N, N, N]);
    assert_eq!(row.saved_hl, Some(before.clone()));
    row.reset_match();
    assert_eq!(row.hl, before);
    assert!(row.saved_hl.is_none());
    row.reset_match();
    assert_eq!(row.hl, before);
    row.highlight_match(6, 100);
    assert_eq!(row.hl, vec![N, N, N, D, D, N, M, M]);
    row.reset_match();
    row.highlight_match(usize::MAX, usize::MAX);
    assert_eq!(row.hl, before);
}

#[test]
fn iter_highlight_gives_the_range() {
    let syntax = c_syntax();
    let row = Row::new("a 1 b".to_string(), Some(&syntax));
    assert_eq!(row.iter_highlight(1, 4), vec![N, D, N]);
    assert_eq!(row.iter_highlight(2, 2), vec![]);
    assert_eq!(row.iter_highlight(0, 5), row.hl);
}

#[test]
fn classes_have_their_colours() {
    assert_eq!(Highlight::Normal.syntax_to_color(), Color::Reset);
    assert_eq!(Highlight::Number.syntax_to_color(), Color::Red);
    assert_eq!(Highlight::String.syntax_to_color(), Color::Magenta);
    assert_eq!(Highlight::Comment.syntax_to_color(), Color::Cyan);
    assert_eq!(Highlight::Keyword1.syntax_to_color(), Color::Yellow);
    assert_eq!(Highlight::Keyword2.syntax_to_color(), Color::Green);
    assert_eq!(Highlight::Match.syntax_to_color(), Color::Blue);
}

#[test]
fn lengths_agree_after_every_operation() {
    let syntax = keyword_syntax();
    let mut row = Row::new("\tif x".to_string(), Some(&syntax));
    assert!(row.is_wf());
    assert_eq!(row.hl.len(), row.render_len());
    row.insert_char(0, '\t', Some(&syntax));
    assert_eq!(row.hl.len(), row.render_len());
    row.append_string("\t\t", Some(&syntax));
    assert_eq!(row.hl.len(), row.render_len());
    row.highlight_match(3, 9);
    assert_eq!(row.hl.len(), row.render_len());
    assert!(row.is_wf());
    row.del_char(0, Some(&syntax));
    assert_eq!(row.hl.len(), row.render_len());
    row.reset_match();
    assert_eq!(row.hl.len(), row.render_len());
    let rest = row.split(3, None);
    assert_eq!(row.hl.len(), row.render_len());
    assert_eq!(rest.hl.len(), rest.render_len());
    row.render_row(None);
    assert_eq!(row.hl.len(), row.render_len());
    assert!(row.is_wf());
    assert!(rest.is_wf());
}

#[test]
fn broken_rows_are_recognised() {
    let mut row = Row::new("a\tb".to_string(), None);
    row.render.pop();
    assert!(!row.is_wf());
    let mut row = Row::new("a\tb".to_string(), None);
    row.hl.pop();
    assert!(!row.is_wf());
    let mut row = Row::new("a\tb".to_string(), None);
    row.saved_hl = Some(Vec::new());
    assert!(!row.is_wf());
    let mut row = Row::new("ab".to_string(), None);
    row.render[1] = 'c';
    assert!(!row.is_wf());
}
