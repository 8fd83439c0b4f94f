//! One line of the document: its characters, their tab-expanded rendering,
//! and the syntax class of every rendered character.

use vstd::prelude::*;
use crate::editor_syntax::{EditorSyntax, Keyword, KeywordRule, SyntaxRules};
use crate::editor_syntax::{numbers_enabled, strings_enabled};
use crate::editor_syntax::highlightflags;
use crate::text::{matches_at, same_chars, starts_at, str_chars};

verus! {

/// A tab advances the rendering to the next multiple of this many columns.
pub const KILO_TAB_STOP: usize = 8;

/// The syntax class of one rendered character.
#[derive(Copy, Clone, Debug, PartialEq, Eq, Structural)]
pub enum Highlight {
    Normal,
    Number,
    String,
    Comment,
    Keyword1,
    Keyword2,
    Match,
}

/// The colours that the classes are painted in.
#[derive(Copy, Clone, Debug, PartialEq, Eq, Structural)]
pub enum Color {
    /// The terminal's default foreground.
    Reset,
    Red,
    Magenta,
    Cyan,
    Yellow,
    Green,
    Blue,
}

/// The colour of a class: normal text keeps the terminal's default.
pub open spec fn colour_of(h: Highlight) -> Color {
    match h {
        Highlight::Normal => Color::Reset,
        Highlight::Number => Color::Red,
        Highlight::String => Color::Magenta,
        Highlight::Comment => Color::Cyan,
        Highlight::Keyword1 => Color::Yellow,
        Highlight::Keyword2 => Color::Green,
        Highlight::Match => Color::Blue,
    }
}

impl Highlight {
    /// The colour of the class.
    pub fn syntax_to_color(&self) -> (color: Color)
        ensures
            color == colour_of(*self),
    {
        match self {
            Highlight::Normal => Color::Reset,
            Highlight::Number => Color::Red,
            Highlight::String => Color::Magenta,
            Highlight::Comment => Color::Cyan,
            Highlight::Keyword1 => Color::Yellow,
            Highlight::Keyword2 => Color::Green,
            Highlight::Match => Color::Blue,
        }
    }
}

/// The characters that end a word.
pub open spec fn separator(c: char) -> bool {
    c == ' ' || c == ',' || c == '.' || c == '(' || c == ')' || c == '+' || c == '-' || c == '/'
        || c == '*' || c == '=' || c == '~' || c == '%' || c == '<' || c == '>' || c == '['
        || c == ']' || c == '{' || c == '}' || c == ';'
}

/// Tests whether `c` ends a word.
pub fn is_separator(c: char) -> (b: bool)
    ensures
        b == separator(c),
{
    c == ' ' || c == ',' || c == '.' || c == '(' || c == ')' || c == '+' || c == '-' || c == '/'
        || c == '*' || c == '=' || c == '~' || c == '%' || c == '<' || c == '>' || c == '['
        || c == ']' || c == '{' || c == '}' || c == ';'
}

/// The decimal digits.
pub open spec fn digit(c: char) -> bool {
    '0' <= c <= '9'
}

/// The rendering of `chars`: every character stands for itself, but a tab,
/// which stands for as many spaces (at least one) as reach the next tab stop.
pub open spec fn expand(chars: Seq<char>) -> Seq<char>
    decreases chars.len(),
{
    if chars.len() == 0 {
        Seq::empty()
    } else {
        let before = expand(chars.drop_last());
        if chars.last() == '\t' {
            before + Seq::new((KILO_TAB_STOP - before.len() % KILO_TAB_STOP as nat) as nat, |j: int| ' ')
        } else {
            before.push(chars.last())
        }
    }
}

/// The visual column at which the character of index `cx` starts: the width
/// of the rendering of the `cx` characters before it.
pub open spec fn column_of(chars: Seq<char>, cx: int) -> nat {
    expand(chars.take(cx)).len()
}

/// The least index from `cx` on whose character ends beyond column `rx`, or
/// the length of `chars` if there is none.
pub open spec fn index_from(chars: Seq<char>, rx: int, cx: int) -> int
    decreases chars.len() - cx,
{
    if cx < 0 || cx >= chars.len() {
        chars.len() as int
    } else if column_of(chars, cx + 1) > rx {
        cx
    } else {
        index_from(chars, rx, cx + 1)
    }
}

/// The index of the character shown at visual column `rx`, or the length of
/// `chars` if the rendering ends before that column.
pub open spec fn index_at(chars: Seq<char>, rx: int) -> int {
    index_from(chars, rx, 0)
}

/// `hl` with the class `h` at the indices from `from` up to `to`.
pub open spec fn paint(hl: Seq<Highlight>, from: int, to: int, h: Highlight) -> Seq<Highlight> {
    Seq::new(hl.len(), |j: int| if from <= j < to { h } else { hl[j] })
}

/// A keyword stands at `i` if its characters do and a separator, or the end
/// of the line, follows them. The empty word stands nowhere.
pub open spec fn keyword_at(render: Seq<char>, i: int, word: Seq<char>) -> bool {
    &&& word.len() > 0
    &&& starts_at(render, i, word)
    &&& (i + word.len() == render.len() || separator(render[i + word.len()]))
}

/// The first keyword from index `k` on that stands at `i`.
pub open spec fn first_keyword_at(render: Seq<char>, i: int, keywords: Seq<KeywordRule>, k: int) -> Option<int>
    decreases keywords.len() - k,
{
    if k < 0 || k >= keywords.len() {
        None
    } else if keyword_at(render, i, keywords[k].text) {
        Some(k)
    } else {
        first_keyword_at(render, i, keywords, k + 1)
    }
}

/// The class of a keyword.
pub open spec fn keyword_class(rule: KeywordRule) -> Highlight {
    if rule.primary {
        Highlight::Keyword1
    } else {
        Highlight::Keyword2
    }
}

/// The classes of `render` once the scan, which has reached index `i` and
/// has classified what lies before it in `hl`, is finished. `prev_sep` says
/// whether a word may start at `i`; `in_string` holds the quote of a string
/// that is open there.
///
/// In order: a comment marker outside a string makes the rest a comment; in
/// a string every character is a string character, a backslash takes its
/// successor along, and the opening quote closes it; a quote opens a string;
/// a digit at a word's start or after a number, and a point after a number,
/// are a number; at a word's start the first keyword that stands there is
/// classified whole; anything else stays as it is.
pub open spec fn scan(
    render: Seq<char>,
    rules: SyntaxRules,
    i: int,
    prev_sep: bool,
    in_string: Option<char>,
    hl: Seq<Highlight>,
) -> Seq<Highlight>
    decreases render.len() - i,
{
    if i < 0 || i >= render.len() {
        hl
    } else {
        let c = render[i];
        let prev_hl = if i > 0 { hl[i - 1] } else { Highlight::Normal };
        let word = if prev_sep { first_keyword_at(render, i, rules.keywords, 0) } else { None };
        let word_len = match word {
            Some(k) => rules.keywords[k].text.len(),
            None => 0,
        };
        if in_string is None && rules.comment is Some && starts_at(render, i, rules.comment->0) {
            paint(hl, i, render.len() as int, Highlight::Comment)
        } else if strings_enabled(rules.flags) && in_string is Some {
            if c == '\\' && i + 1 < render.len() {
                scan(render, rules, i + 2, prev_sep, in_string, paint(hl, i, i + 2, Highlight::String))
            } else {
                scan(
                    render,
                    rules,
                    i + 1,
                    true,
                    if c == in_string->0 { None } else { in_string },
                    hl.update(i, Highlight::String),
                )
            }
        } else if strings_enabled(rules.flags) && (c == '"' || c == '\'') {
            scan(render, rules, i + 1, prev_sep, Some(c), hl.update(i, Highlight::String))
        } else if numbers_enabled(rules.flags) && ((digit(c) && (prev_sep || prev_hl == Highlight::Number))
            || (c == '.' && prev_hl == Highlight::Number)) {
            scan(render, rules, i + 1, false, in_string, hl.update(i, Highlight::Number))
        } else if 0 < word_len <= render.len() - i {
            scan(
                render,
                rules,
                i + word_len,
                false,
                in_string,
                paint(hl, i, i + word_len, keyword_class(rules.keywords[word->0])),
            )
        } else {
            scan(render, rules, i + 1, separator(c), in_string, hl)
        }
    }
}

/// `n` times the class `Normal`.
pub open spec fn all_normal(n: nat) -> Seq<Highlight> {
    Seq::new(n, |j: int| Highlight::Normal)
}

/// The classes of a rendered line under `rules`; without rules every
/// character is normal.
pub open spec fn highlight_of(render: Seq<char>, rules: Option<SyntaxRules>) -> Seq<Highlight> {
    match rules {
        Some(r) => scan(render, r, 0, true, None, all_normal(render.len())),
        None => all_normal(render.len()),
    }
}

/// The rules behind an optional syntax.
pub open spec fn rules_of(syntax: Option<&EditorSyntax>) -> Option<SyntaxRules> {
    match syntax {
        Some(s) => Some(s@),
        None => None,
    }
}

/// One line of text.
#[derive(Clone, Debug)]
pub struct Row {
    /// The characters of the line, without a line end.
    pub chars: Vec<char>,
    /// The line as it is shown, tabs expanded.
    pub render: Vec<char>,
    /// The class of every character of `render`.
    pub hl: Vec<Highlight>,
    /// The classes as they were before a search match was marked.
    pub saved_hl: Option<Vec<Highlight>>,
}

/// What a row holds.
pub struct RowView {
    pub chars: Seq<char>,
    pub render: Seq<char>,
    pub hl: Seq<Highlight>,
    pub saved_hl: Option<Seq<Highlight>>,
}

impl View for Row {
    type V = RowView;

    open spec fn view(&self) -> RowView {
        RowView {
            chars: self.chars@,
            render: self.render@,
            hl: self.hl@,
            saved_hl: match self.saved_hl {
                Some(saved) => Some(saved@),
                None => None,
            },
        }
    }
}

/// The row classified anew under `rules`: only its classes are rewritten.
pub open spec fn reclassified(row: RowView, rules: Option<SyntaxRules>) -> RowView {
    RowView { hl: highlight_of(row.render, rules), ..row }
}

/// The row without a marked match: the classes that were set aside are
/// back in place.
pub open spec fn unmarked(row: RowView) -> RowView {
    RowView {
        hl: match row.saved_hl {
            Some(saved) => saved,
            None => row.hl,
        },
        saved_hl: None,
        ..row
    }
}

/// The row with a match marked from `start` up to `start + len`, and the
/// classes it had set aside.
pub open spec fn marked(row: RowView, start: int, len: int) -> RowView {
    RowView {
        hl: paint(row.hl, start, start + len, Highlight::Match),
        saved_hl: Some(row.hl),
        ..row
    }
}

/// The rules in a form that the scan can index: every text as characters.
struct Scanner {
    comment: Option<Vec<char>>,
    words: Vec<Vec<char>>,
    primary: Vec<bool>,
    flags: u32,
}

impl Scanner {
    spec fn rules(&self) -> SyntaxRules {
        SyntaxRules {
            comment: match self.comment {
                Some(m) => Some(m@),
                None => None,
            },
            keywords: Seq::new(
                self.words@.len(),
                |k: int| KeywordRule { text: self.words@[k]@, primary: self.primary@[k] },
            ),
            flags: self.flags,
        }
    }

    fn compile(syntax: &EditorSyntax) -> (sc: Scanner)
        ensures
            sc.words@.len() == sc.primary@.len(),
            sc.rules() == syntax@,
    {
        let comment = match &syntax.singleline_comment_start {
            Some(m) => Some(str_chars(m.as_str())),
            None => None,
        };
        let mut words: Vec<Vec<char>> = Vec::new();
        let mut primary: Vec<bool> = Vec::new();
        let mut k: usize = 0;
        while k < syntax.keywords.len()
            invariant
                k <= syntax.keywords@.len(),
                words@.len() == k,
                primary@.len() == k,
                forall|j: int|
                    0 <= j < k ==> syntax.keywords@[j]@ == (KeywordRule {
                        text: #[trigger] words@[j]@,
                        primary: primary@[j],
                    }),
            decreases syntax.keywords@.len() - k,
        {
            match &syntax.keywords[k] {
                Keyword::Basic(w) => {
                    words.push(str_chars(w.as_str()));
                    primary.push(true);
                },
                Keyword::Type(w) => {
                    words.push(str_chars(w.as_str()));
                    primary.push(false);
                },
            }
            k += 1;
        }
        let sc = Scanner { comment, words, primary, flags: syntax.flags };
        assert(sc.rules().keywords =~= syntax@.keywords);
        sc
    }

    /// The first keyword that stands at `i`.
    fn first_keyword(&self, render: &Vec<char>, i: usize) -> (hit: Option<usize>)
        requires
            self.words@.len() == self.primary@.len(),
            i < render.len(),
        ensures
            match hit {
                Some(k) => first_keyword_at(render@, i as int, self.rules().keywords, 0) == Some(
                    k as int,
                ) && k < self.words@.len() && 0 < self.words@[k as int]@.len() <= render@.len() - i,
                None => first_keyword_at(render@, i as int, self.rules().keywords, 0) is None,
            },
    {
        let mut k: usize = 0;
        while k < self.words.len()
            invariant
                k <= self.words@.len(),
                self.words@.len() == self.primary@.len(),
                i < render.len(),
                first_keyword_at(render@, i as int, self.rules().keywords, 0) == first_keyword_at(
                    render@,
                    i as int,
                    self.rules().keywords,
                    k as int,
                ),
            decreases self.words@.len() - k,
        {
            let word = &self.words[k];
            if word.len() > 0 && matches_at(render, i, word) {
                let end: usize = i + word.len();
                if end == render.len() || is_separator(render[end]) {
                    return Some(k);
                }
            }
            k += 1;
        }
        None
    }
}

/// `n` times the class `Normal`.
fn normal_vec(n: usize) -> (hl: Vec<Highlight>)
    ensures
        hl@ == all_normal(n as nat),
{
    let mut hl: Vec<Highlight> = Vec::new();
    while hl.len() < n
        invariant
            hl@.len() <= n,
            hl@ =~= all_normal(hl@.len()),
        decreases n - hl@.len(),
    {
        hl.push(Highlight::Normal);
    }
    assert(hl@ =~= all_normal(n as nat));
    hl
}

/// Gives the class `h` to the indices from `from` up to `to`.
fn paint_range(hl: &mut Vec<Highlight>, from: usize, to: usize, h: Highlight)
    ensures
        final(hl)@ == paint(old(hl)@, from as int, to as int, h),
{
    let end: usize = if to < hl.len() { to } else { hl.len() };
    let mut j: usize = from;
    while j < end
        invariant
            end <= hl@.len(),
            end == to || end == hl@.len(),
            end <= to,
            from <= j,
            j == from || j <= end,
            hl@.len() == old(hl)@.len(),
            hl@ =~= paint(old(hl)@, from as int, j as int, h),
        decreases end - j,
    {
        hl[j] = h;
        j += 1;
    }
    assert(hl@ =~= paint(old(hl)@, from as int, to as int, h));
}

/// The rendering of `chars`.
fn expanded(chars: &Vec<char>) -> (render: Vec<char>)
    ensures
        render@ == expand(chars@),
{
    let mut render: Vec<char> = Vec::new();
    let mut i: usize = 0;
    assert(chars@.take(0) =~= Seq::<char>::empty());
    while i < chars.len()
        invariant
            i <= chars.len(),
            render@ == expand(chars@.take(i as int)),
        decreases chars.len() - i,
    {
        let c: char = chars[i];
        proof {
            lemma_column_step(chars@, i as int);
        }
        if c == '\t' {
            let ghost before = render@;
            render.push(' ');
            while render.len() % KILO_TAB_STOP != 0
                invariant
                    before.len() < render@.len() <= before.len() + KILO_TAB_STOP - before.len()
                        % KILO_TAB_STOP as nat,
                    render@ =~= before + Seq::new(
                        (render@.len() - before.len()) as nat,
                        |j: int| ' ',
                    ),
                decreases before.len() + KILO_TAB_STOP - render@.len(),
            {
                render.push(' ');
            }
        } else {
            render.push(c);
        }
        i += 1;
    }
    assert(chars@.take(chars@.len() as int) =~= chars@);
    render
}

/// Classifies a rendered line.
fn classify(render: &Vec<char>, sc: &Scanner) -> (hl: Vec<Highlight>)
    requires
        sc.words@.len() == sc.primary@.len(),
    ensures
        hl@.len() == render@.len(),
        hl@ == scan(render@, sc.rules(), 0, true, None, all_normal(render@.len())),
{
    let n: usize = render.len();
    let strings: bool = sc.flags & highlightflags::STRINGS != 0;
    let numbers: bool = sc.flags & highlightflags::NUMBERS != 0;
    let mut hl = normal_vec(n);
    let mut i: usize = 0;
    let mut prev_sep: bool = true;
    let mut in_string: Option<char> = None;
    let ghost rules = sc.rules();
    let ghost goal = scan(render@, rules, 0, true, None, all_normal(n as nat));
    while i < n
        invariant
            n == render.len(),
            i <= n,
            hl@.len() == n,
            rules == sc.rules(),
            sc.words@.len() == sc.primary@.len(),
            strings == strings_enabled(rules.flags),
            numbers == numbers_enabled(rules.flags),
            goal == scan(render@, rules, 0, true, None, all_normal(n as nat)),
            scan(render@, rules, i as int, prev_sep, in_string, hl@) == goal,
        decreases n - i,
    {
        let c: char = render[i];
        let prev_hl = if i > 0 { hl[i - 1] } else { Highlight::Normal };
        let at_comment: bool = match &sc.comment {
            Some(m) => in_string.is_none() && matches_at(render, i, m),
            None => false,
        };
        if at_comment {
            paint_range(&mut hl, i, n, Highlight::Comment);
            return hl;
        }
        if strings && in_string.is_some() {
            let quote: char = in_string.unwrap();
            if c == '\\' && i + 1 < n {
                paint_range(&mut hl, i, i + 2, Highlight::String);
                i += 2;
            } else {
                hl[i] = Highlight::String;
                if c == quote {
                    in_string = None;
                }
                prev_sep = true;
                i += 1;
            }
        } else if strings && (c == '"' || c == '\'') {
            in_string = Some(c);
            hl[i] = Highlight::String;
            i += 1;
        } else if numbers && ((('0' <= c && c <= '9') && (prev_sep || prev_hl == Highlight::Number))
            || (c == '.' && prev_hl == Highlight::Number)) {
            hl[i] = Highlight::Number;
            prev_sep = false;
            i += 1;
        } else {
            let word: Option<usize> = if prev_sep { sc.first_keyword(render, i) } else { None };
            match word {
                Some(k) => {
                    let len: usize = sc.words[k].len();
                    let class = if sc.primary[k] { Highlight::Keyword1 } else { Highlight::Keyword2 };
                    paint_range(&mut hl, i, i + len, class);
                    prev_sep = false;
                    i += len;
                },
                None => {
                    prev_sep = is_separator(c);
                    i += 1;
                },
            }
        }
    }
    hl
}

/// The column after a character is the next tab stop for a tab, and one
/// further for any other character.
pub proof fn lemma_column_step(chars: Seq<char>, cx: int)
    requires
        0 <= cx < chars.len(),
    ensures
        column_of(chars, cx + 1) == if chars[cx] == '\t' {
            column_of(chars, cx) + KILO_TAB_STOP - column_of(chars, cx) % KILO_TAB_STOP as nat
        } else {
            column_of(chars, cx) + 1 as int
        },
        expand(chars.take(cx + 1)) == if chars[cx] == '\t' {
            expand(chars.take(cx)) + Seq::new(
                (KILO_TAB_STOP - column_of(chars, cx) % KILO_TAB_STOP as nat) as nat,
                |j: int| ' ',
            )
        } else {
            expand(chars.take(cx)).push(chars[cx])
        },
{
    assert(chars.take(cx + 1).drop_last() =~= chars.take(cx));
    assert(chars.take(cx + 1).last() == chars[cx]);
}

/// Columns grow with the index, and strictly so.
pub proof fn lemma_column_monotone(chars: Seq<char>, a: int, b: int)
    requires
        0 <= a <= b <= chars.len(),
    ensures
        column_of(chars, a) + (b - a) <= column_of(chars, b),
    decreases b - a,
{
    if a < b {
        lemma_column_monotone(chars, a, b - 1);
        lemma_column_step(chars, b - 1);
    }
}

/// Going from a visual column to the character shown there and back to that
/// character's column never moves right: the column found is at most `rx`.
/// It may be less, since every column of a tab leads to the tab's first.
pub proof fn lemma_rx_cx_rx(chars: Seq<char>, rx: int)
    requires
        0 <= rx,
    ensures
        0 <= index_at(chars, rx) <= chars.len(),
        column_of(chars, index_at(chars, rx)) <= rx,
{
    lemma_index_from(chars, rx, 0);
    assert(chars.take(0) =~= Seq::<char>::empty());
}

/// Going from a character to its visual column and back finds the character
/// again.
pub proof fn lemma_cx_rx_cx(chars: Seq<char>, cx: int)
    requires
        0 <= cx <= chars.len(),
    ensures
        index_at(chars, column_of(chars, cx) as int) == cx,
{
    let rx = column_of(chars, cx) as int;
    lemma_index_from(chars, rx, 0);
    let found = index_at(chars, rx);
    if found < cx {
        lemma_column_monotone(chars, found + 1, cx);
    } else if found > cx {
        lemma_column_monotone(chars, cx, cx + 1);
        assert(column_of(chars, cx + 1) <= rx);
    }
}

/// What `index_from` finds: an index from `cx` on, before which every
/// character ends at or before column `rx`, and whose own character, if
/// there is one, ends beyond it.
pub proof fn lemma_index_from(chars: Seq<char>, rx: int, cx: int)
    requires
        0 <= cx <= chars.len(),
    ensures
        cx <= index_from(chars, rx, cx) <= chars.len(),
        forall|j: int| cx < j <= index_from(chars, rx, cx) ==> #[trigger] column_of(chars, j) <= rx,
        index_from(chars, rx, cx) < chars.len() ==> column_of(
            chars,
            index_from(chars, rx, cx) + 1,
        ) > rx,
    decreases chars.len() - cx,
{
    if cx < chars.len() && column_of(chars, cx + 1) <= rx {
        lemma_index_from(chars, rx, cx + 1);
    }
}

/// The classes that a scan leaves are as many as the rendered characters.
pub proof fn lemma_scan_len(
    render: Seq<char>,
    rules: SyntaxRules,
    i: int,
    prev_sep: bool,
    in_string: Option<char>,
    hl: Seq<Highlight>,
)
    requires
        hl.len() == render.len(),
    ensures
        scan(render, rules, i, prev_sep, in_string, hl).len() == render.len(),
    decreases render.len() - i,
{
    if 0 <= i < render.len() {
        let c = render[i];
        let word = if prev_sep { first_keyword_at(render, i, rules.keywords, 0) } else { None };
        let word_len = match word {
            Some(k) => rules.keywords[k].text.len(),
            None => 0,
        };
        if i + 1 < render.len() {
            lemma_scan_len(render, rules, i + 2, prev_sep, in_string, paint(hl, i, i + 2, Highlight::String));
        }
        lemma_scan_len(
            render,
            rules,
            i + 1,
            true,
            if c == in_string->0 { None } else { in_string },
            hl.update(i, Highlight::String),
        );
        lemma_scan_len(render, rules, i + 1, prev_sep, Some(c), hl.update(i, Highlight::String));
        lemma_scan_len(render, rules, i + 1, false, in_string, hl.update(i, Highlight::Number));
        if 0 < word_len <= render.len() - i {
            lemma_scan_len(
                render,
                rules,
                i + word_len,
                false,
                in_string,
                paint(hl, i, i + word_len, keyword_class(rules.keywords[word->0])),
            );
        }
        lemma_scan_len(render, rules, i + 1, separator(c), in_string, hl);
    }
}

/// Whether the scan may give the class `h` under `rules`: never that of a
/// match; that of a number or of a string only where their classifier is
/// on; that of a comment only with a comment marker; that of a keyword only
/// with keywords.
pub open spec fn class_allowed(h: Highlight, rules: SyntaxRules) -> bool {
    match h {
        Highlight::Normal => true,
        Highlight::Number => numbers_enabled(rules.flags),
        Highlight::String => strings_enabled(rules.flags),
        Highlight::Comment => rules.comment is Some,
        Highlight::Keyword1 => rules.keywords.len() > 0,
        Highlight::Keyword2 => rules.keywords.len() > 0,
        Highlight::Match => false,
    }
}

/// The first keyword that stands somewhere is one of the keywords.
pub proof fn lemma_first_keyword_at(render: Seq<char>, i: int, keywords: Seq<KeywordRule>, k: int)
    requires
        0 <= k,
    ensures
        first_keyword_at(render, i, keywords, k) is Some ==> k <= first_keyword_at(
            render,
            i,
            keywords,
            k,
        )->0 < keywords.len(),
    decreases keywords.len() - k,
{
    if k < keywords.len() && !keyword_at(render, i, keywords[k].text) {
        lemma_first_keyword_at(render, i, keywords, k + 1);
    }
}

/// A scan that goes on from allowed classes leaves allowed classes.
pub proof fn lemma_scan_classes(
    render: Seq<char>,
    rules: SyntaxRules,
    i: int,
    prev_sep: bool,
    in_string: Option<char>,
    hl: Seq<Highlight>,
)
    requires
        hl.len() == render.len(),
        forall|j: int| 0 <= j < hl.len() ==> class_allowed(#[trigger] hl[j], rules),
    ensures
        forall|j: int|
            0 <= j < render.len() ==> class_allowed(
                #[trigger] scan(render, rules, i, prev_sep, in_string, hl)[j],
                rules,
            ),
    decreases render.len() - i,
{
    let result = scan(render, rules, i, prev_sep, in_string, hl);
    if 0 <= i < render.len() {
        let c = render[i];
        let prev_hl = if i > 0 { hl[i - 1] } else { Highlight::Normal };
        let word = if prev_sep { first_keyword_at(render, i, rules.keywords, 0) } else { None };
        let word_len = match word {
            Some(k) => rules.keywords[k].text.len(),
            None => 0,
        };
        if in_string is None && rules.comment is Some && starts_at(render, i, rules.comment->0) {
            lemma_paint_classes(hl, i, render.len() as int, Highlight::Comment, rules);
            assert(result == paint(hl, i, render.len() as int, Highlight::Comment));
        } else if strings_enabled(rules.flags) && in_string is Some {
            if c == '\\' && i + 1 < render.len() {
                let next = paint(hl, i, i + 2, Highlight::String);
                lemma_paint_classes(hl, i, i + 2, Highlight::String, rules);
                lemma_scan_classes(render, rules, i + 2, prev_sep, in_string, next);
                assert(result == scan(render, rules, i + 2, prev_sep, in_string, next));
            } else {
                let open = if c == in_string->0 { None } else { in_string };
                let next = hl.update(i, Highlight::String);
                lemma_scan_classes(render, rules, i + 1, true, open, next);
                assert(result == scan(render, rules, i + 1, true, open, next));
            }
        } else if strings_enabled(rules.flags) && (c == '"' || c == '\'') {
            let next = hl.update(i, Highlight::String);
            lemma_scan_classes(render, rules, i + 1, prev_sep, Some(c), next);
            assert(result == scan(render, rules, i + 1, prev_sep, Some(c), next));
        } else if numbers_enabled(rules.flags) && ((digit(c) && (prev_sep || prev_hl
            == Highlight::Number)) || (c == '.' && prev_hl == Highlight::Number)) {
            let next = hl.update(i, Highlight::Number);
            lemma_scan_classes(render, rules, i + 1, false, in_string, next);
            assert(result == scan(render, rules, i + 1, false, in_string, next));
        } else if 0 < word_len <= render.len() - i {
            lemma_first_keyword_at(render, i, rules.keywords, 0);
            let class = keyword_class(rules.keywords[word->0]);
            let next = paint(hl, i, i + word_len, class);
            lemma_paint_classes(hl, i, i + word_len, class, rules);
            lemma_scan_classes(render, rules, i + word_len, false, in_string, next);
            assert(result == scan(render, rules, i + word_len, false, in_string, next));
        } else {
            lemma_scan_classes(render, rules, i + 1, separator(c), in_string, hl);
            assert(result == scan(render, rules, i + 1, separator(c), in_string, hl));
        }
    } else {
        assert(result == hl);
    }
}

/// Painting an allowed class over allowed classes leaves allowed classes.
pub proof fn lemma_paint_classes(hl: Seq<Highlight>, from: int, to: int, h: Highlight, rules: SyntaxRules)
    requires
        class_allowed(h, rules),
        forall|j: int| 0 <= j < hl.len() ==> class_allowed(#[trigger] hl[j], rules),
    ensures
        paint(hl, from, to, h).len() == hl.len(),
        forall|j: int| 0 <= j < hl.len() ==> class_allowed(#[trigger] paint(hl, from, to, h)[j], rules),
{
    assert forall|j: int| 0 <= j < hl.len() implies class_allowed(
        #[trigger] paint(hl, from, to, h)[j],
        rules,
    ) by {
        assert(class_allowed(hl[j], rules));
    }
}

/// Classifying never marks a match, and gives the class of a number, a
/// string, a comment or a keyword only where the rules have a classifier,
/// a marker or keywords for it. Without rules every class is normal.
pub proof fn lemma_highlight_classes(render: Seq<char>, rules: Option<SyntaxRules>, j: int)
    requires
        0 <= j < render.len(),
    ensures
        match rules {
            Some(r) => class_allowed(highlight_of(render, rules)[j], r),
            None => highlight_of(render, rules)[j] == Highlight::Normal,
        },
{
    if rules is Some {
        lemma_scan_classes(render, rules->0, 0, true, None, all_normal(render.len()));
    }
}

/// Every rendered character has a class, whatever the rules.
pub proof fn lemma_highlight_len(render: Seq<char>, rules: Option<SyntaxRules>)
    ensures
        highlight_of(render, rules).len() == render.len(),
{
    if rules is Some {
        lemma_scan_len(render, rules->0, 0, true, None, all_normal(render.len()));
    }
}

impl Row {
    /// The rendering is that of the characters, and every rendered character
    /// has a class, in the classes shown and in those set aside.
    pub open spec fn wf(&self) -> bool {
        &&& self.render@ == expand(self.chars@)
        &&& self.hl@.len() == self.render@.len()
        &&& (self.saved_hl is Some ==> self.saved_hl->0@.len() == self.render@.len())
    }

    /// The row is freshly classified under `rules`: no match is marked.
    pub open spec fn fresh(&self, rules: Option<SyntaxRules>) -> bool {
        &&& self.wf()
        &&& self.hl@ == highlight_of(self.render@, rules)
        &&& self.saved_hl is None
    }

    /// Tests whether the row is well formed.
    pub fn is_wf(&self) -> (ok: bool)
        ensures
            ok == self.wf(),
    {
        let render = expanded(&self.chars);
        let saved_fits = match &self.saved_hl {
            Some(saved) => saved.len() == self.render.len(),
            None => true,
        };
        same_chars(&self.render, &render) && self.hl.len() == self.render.len() && saved_fits
    }

    /// A row of the characters of `chars`, rendered and classified.
    pub fn new(chars: String, syntax: Option<&EditorSyntax>) -> (row: Row)
        ensures
            row.chars@ == chars@,
            row.fresh(rules_of(syntax)),
    {
        let mut row = Row {
            chars: str_chars(chars.as_str()),
            render: Vec::new(),
            hl: Vec::new(),
            saved_hl: None,
        };
        row.render_row(syntax);
        row
    }

    /// The number of characters.
    pub fn len(&self) -> (n: usize)
        ensures
            n == self.chars@.len(),
    {
        self.chars.len()
    }

    /// The number of rendered characters.
    pub fn render_len(&self) -> (n: usize)
        ensures
            n == self.render@.len(),
    {
        self.render.len()
    }

    /// The visual column of the character of index `cx`; beyond the line's
    /// end, the column after its last character.
    pub fn cx_to_rx(&self, cx: usize) -> (rx: usize)
        requires
            self.wf(),
        ensures
            rx == column_of(self.chars@, if cx <= self.chars@.len() { cx as int } else { self.chars@.len() as int }),
            rx <= self.render@.len(),
    {
        let stop: usize = if cx <= self.chars.len() { cx } else { self.chars.len() };
        let mut rx: usize = 0;
        let mut i: usize = 0;
        assert(self.chars@.take(0) =~= Seq::<char>::empty());
        while i < stop
            invariant
                self.wf(),
                i <= stop <= self.chars.len(),
                rx == column_of(self.chars@, i as int),
            decreases stop - i,
        {
            proof {
                lemma_column_step(self.chars@, i as int);
                lemma_column_monotone(self.chars@, i + 1, self.chars@.len() as int);
                assert(self.chars@.take(self.chars@.len() as int) =~= self.chars@);
                assert(column_of(self.chars@, i + 1) <= self.render.len());
            }
            if self.chars[i] == '\t' {
                rx += (KILO_TAB_STOP - 1) - (rx % KILO_TAB_STOP);
            }
            rx += 1;
            i += 1;
        }
        proof {
            lemma_column_monotone(self.chars@, i as int, self.chars@.len() as int);
            assert(self.chars@.take(self.chars@.len() as int) =~= self.chars@);
        }
        rx
    }

    /// The index of the character shown at visual column `rx`; beyond the
    /// rendering's end, the number of characters.
    pub fn rx_to_cx(&self, rx: usize) -> (cx: usize)
        requires
            self.wf(),
        ensures
            cx == index_at(self.chars@, rx as int),
            cx <= self.chars@.len(),
    {
        let mut cur_rx: usize = 0;
        let mut cx: usize = 0;
        assert(self.chars@.take(0) =~= Seq::<char>::empty());
        while cx < self.chars.len()
            invariant
                self.wf(),
                cx <= self.chars.len(),
                cur_rx == column_of(self.chars@, cx as int),
                index_from(self.chars@, rx as int, cx as int) == index_at(self.chars@, rx as int),
            decreases self.chars.len() - cx,
        {
            proof {
                lemma_column_step(self.chars@, cx as int);
                lemma_column_monotone(self.chars@, cx + 1, self.chars@.len() as int);
                assert(self.chars@.take(self.chars@.len() as int) =~= self.chars@);
                assert(column_of(self.chars@, cx + 1) <= self.render.len());
            }
            if self.chars[cx] == '\t' {
                cur_rx += (KILO_TAB_STOP - 1) - (cur_rx % KILO_TAB_STOP);
            }
            cur_rx += 1;
            if cur_rx > rx {
                return cx;
            }
            cx += 1;
        }
        cx
    }

    /// Puts `c` before the character of index `at`, or at the end if there
    /// is no such character.
    pub fn insert_char(&mut self, at: usize, c: char, syntax: Option<&EditorSyntax>)
        ensures
            final(self).chars@ == old(self).chars@.insert(
                if at < old(self).chars@.len() { at as int } else { old(self).chars@.len() as int },
                c,
            ),
            final(self).fresh(rules_of(syntax)),
    {
        if at >= self.chars.len() {
            self.chars.push(c);
            assert(self.chars@ =~= old(self).chars@.insert(old(self).chars@.len() as int, c));
        } else {
            self.chars.insert(at, c);
        }
        self.render_row(syntax);
    }

    /// Takes out the character of index `at`. Without such a character
    /// nothing changes and the result is `false`.
    pub fn del_char(&mut self, at: usize, syntax: Option<&EditorSyntax>) -> (done: bool)
        ensures
            done == (at < old(self).chars@.len()),
            done ==> final(self).chars@ == old(self).chars@.remove(at as int) && final(self).fresh(
                rules_of(syntax),
            ),
            !done ==> *final(self) == *old(self),
    {
        if at >= self.chars.len() {
            return false;
        }
        self.chars.remove(at);
        self.render_row(syntax);
        true
    }

    /// Cuts the row before the character of index `at` (at its end if there
    /// is no such character) and hands back the part cut off as a row.
    pub fn split(&mut self, at: usize, syntax: Option<&EditorSyntax>) -> (rest: Row)
        ensures
            final(self).chars@ + rest.chars@ == old(self).chars@,
            final(self).chars@.len() == if at < old(self).chars@.len() { at as int } else {
                old(self).chars@.len() as int
            },
            final(self).fresh(rules_of(syntax)),
            rest.fresh(rules_of(syntax)),
    {
        let cut: usize = if at < self.chars.len() { at } else { self.chars.len() };
        let tail = self.chars.split_off(cut);
        assert(self.chars@ + tail@ =~= old(self).chars@);
        self.render_row(syntax);
        let mut rest = Row { chars: tail, render: Vec::new(), hl: Vec::new(), saved_hl: None };
        rest.render_row(syntax);
        rest
    }

    /// Adds the characters of `s` at the end.
    pub fn append_string(&mut self, s: &str, syntax: Option<&EditorSyntax>)
        ensures
            final(self).chars@ == old(self).chars@ + s@,
            final(self).fresh(rules_of(syntax)),
    {
        let mut more = str_chars(s);
        self.chars.append(&mut more);
        self.render_row(syntax);
    }

    /// Renders the characters anew, then classifies the rendering. The
    /// classes that were set aside when a match was marked are dropped:
    /// they belong to the rendering that is replaced, and may not fit the
    /// new one.
    pub fn render_row(&mut self, syntax: Option<&EditorSyntax>)
        ensures
            final(self).chars@ == old(self).chars@,
            final(self).fresh(rules_of(syntax)),
    {
        let render = expanded(&self.chars);
        self.render = render;
        self.saved_hl = None;
        self.update_syntax(syntax);
    }

    /// Classifies the rendering anew. Only the classes are rewritten: the
    /// characters, the rendering and the classes that were set aside when
    /// a match was marked stay as they are.
    pub fn update_syntax(&mut self, syntax: Option<&EditorSyntax>)
        ensures
            final(self).chars@ == old(self).chars@,
            final(self).render@ == old(self).render@,
            final(self).saved_hl == old(self).saved_hl,
            final(self).hl@ == highlight_of(old(self).render@, rules_of(syntax)),
            final(self).hl@.len() == old(self).render@.len(),
            final(self)@ == reclassified(old(self)@, rules_of(syntax)),
            old(self).wf() ==> final(self).wf(),
    {
        match syntax {
            Some(s) => {
                let sc = Scanner::compile(s);
                self.hl = classify(&self.render, &sc);
            },
            None => {
                self.hl = normal_vec(self.render.len());
            },
        }
    }

    /// Marks the rendered characters from `start` up to `start + len` as a
    /// search match, and sets the classes they had aside.
    pub fn highlight_match(&mut self, start: usize, len: usize)
        ensures
            final(self)@ == marked(old(self)@, start as int, len as int),
            old(self).wf() ==> final(self).wf(),
    {
        let n: usize = self.hl.len();
        let mut saved: Vec<Highlight> = Vec::new();
        let mut j: usize = 0;
        while j < n
            invariant
                n == self.hl.len(),
                j <= n,
                saved@ =~= self.hl@.take(j as int),
            decreases n - j,
        {
            saved.push(self.hl[j]);
            j += 1;
        }
        assert(saved@ =~= self.hl@);
        self.saved_hl = Some(saved);
        let end: usize = if start <= n && len <= n - start { start + len } else { n };
        paint_range(&mut self.hl, start, end, Highlight::Match);
        assert(self.hl@ =~= paint(old(self).hl@, start as int, start + len, Highlight::Match));
    }

    /// Puts back the classes that were set aside when a match was marked.
    /// Without such classes nothing changes.
    pub fn reset_match(&mut self)
        ensures
            final(self)@ == unmarked(old(self)@),
            old(self).wf() ==> final(self).wf(),
    {
        match self.saved_hl.take() {
            Some(saved) => {
                self.hl = saved;
            },
            None => {},
        }
    }

    /// The classes of the rendered characters from `start` up to `end`.
    pub fn iter_highlight(&self, start: usize, end: usize) -> (classes: Vec<Highlight>)
        requires
            start <= end <= self.hl@.len(),
        ensures
            classes@ == self.hl@.subrange(start as int, end as int),
    {
        let mut classes: Vec<Highlight> = Vec::new();
        let mut j: usize = start;
        while j < end
            invariant
                start <= j <= end <= self.hl.len(),
                classes@ =~= self.hl@.subrange(start as int, j as int),
            decreases end - j,
        {
            classes.push(self.hl[j]);
            j += 1;
        }
        classes
    }
}

} // verus!
