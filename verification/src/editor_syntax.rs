//! Syntax rules: what a file type's lines are classified by.

use vstd::prelude::*;

pub mod highlightflags;

verus! {

pub type EditorFlags = u32;

/// A word of the language, with the class it is shown in.
#[derive(Clone, Debug)]
pub enum Keyword {
    /// A primary keyword.
    Basic(String),
    /// A secondary keyword, such as a type name.
    Type(String),
}

/// The rules of one file type.
#[derive(Clone, Debug)]
pub struct EditorSyntax {
    pub filetype: String,
    pub filematch: Vec<String>,
    pub singleline_comment_start: Option<String>,
    pub keywords: Vec<Keyword>,
    pub flags: EditorFlags,
}

/// What a keyword is to the scanner: its characters and whether it is primary.
pub struct KeywordRule {
    pub text: Seq<char>,
    pub primary: bool,
}

/// What a syntax is to the scanner: the comment marker, the keywords in
/// order, and the classifiers that are switched on.
pub struct SyntaxRules {
    pub comment: Option<Seq<char>>,
    pub keywords: Seq<KeywordRule>,
    pub flags: u32,
}

impl View for Keyword {
    type V = KeywordRule;

    open spec fn view(&self) -> KeywordRule {
        match *self {
            Keyword::Basic(s) => KeywordRule { text: s@, primary: true },
            Keyword::Type(s) => KeywordRule { text: s@, primary: false },
        }
    }
}

impl View for EditorSyntax {
    type V = SyntaxRules;

    open spec fn view(&self) -> SyntaxRules {
        SyntaxRules {
            comment: match self.singleline_comment_start {
                Some(s) => Some(s@),
                None => None,
            },
            keywords: Seq::new(self.keywords@.len(), |k: int| self.keywords@[k]@),
            flags: self.flags,
        }
    }
}

/// Whether the number classifier is on in `flags`.
pub open spec fn numbers_enabled(flags: u32) -> bool {
    flags & highlightflags::NUMBERS != 0
}

/// Whether the string classifier is on in `flags`.
pub open spec fn strings_enabled(flags: u32) -> bool {
    flags & highlightflags::STRINGS != 0
}

/// The syntaxes that are built in: C alone, for the matchers `c`, `.h` and
/// `.cpp`, with `//` comments, numbers and strings, and no keywords.
pub open spec fn builtin_syntaxes(db: Seq<EditorSyntax>) -> bool {
    &&& db.len() == 1
    &&& db[0].filetype@ == "c"@
    &&& db[0].filematch@.len() == 3
    &&& db[0].filematch@[0]@ == "c"@
    &&& db[0].filematch@[1]@ == ".h"@
    &&& db[0].filematch@[2]@ == ".cpp"@
    &&& db[0].singleline_comment_start is Some
    &&& db[0].singleline_comment_start->0@ == "//"@
    &&& db[0].keywords@.len() == 0
    &&& db[0].flags == highlightflags::NUMBERS | highlightflags::STRINGS
}

impl EditorSyntax {
    /// The syntaxes that are built in.
    pub fn new() -> (db: Vec<EditorSyntax>)
        ensures
            builtin_syntaxes(db@),
    {
        let mut filematch: Vec<String> = Vec::new();
        filematch.push("c".to_owned());
        filematch.push(".h".to_owned());
        filematch.push(".cpp".to_owned());
        let mut db: Vec<EditorSyntax> = Vec::new();
        db.push(
            EditorSyntax {
                filetype: "c".to_owned(),
                filematch,
                singleline_comment_start: Some("//".to_owned()),
                keywords: Vec::new(),
                flags: highlightflags::NUMBERS | highlightflags::STRINGS,
            },
        );
        db
    }
}

} // verus!
