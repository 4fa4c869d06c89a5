//! The closed catalog of lexical token categories, each with one canonical
//! display label used in human-facing messages.

use vstd::prelude::*;

verus! {

#[derive(Debug, PartialEq, Eq, Clone, Copy, Structural)]
pub enum TokenKind {
    Asterisk,
    At,
    Backtick,
    BangEquals,
    BraceL,
    BraceR,
    BracketL,
    BracketR,
    Colon,
    ColonEquals,
    Comma,
    Comment,
    Dedent,
    Dollar,
    Eof,
    Eol,
    Equals,
    EqualsEquals,
    Identifier,
    Indent,
    InterpolationEnd,
    InterpolationStart,
    ParenL,
    ParenR,
    Plus,
    StringToken,
    Text,
    Unspecified,
    Whitespace,
}

/// The canonical display label of each category.
pub open spec fn spec_label(kind: TokenKind) -> Seq<char> {
    match kind {
        TokenKind::Asterisk => "'*'"@,
        TokenKind::At => "'@'"@,
        TokenKind::Backtick => "backtick"@,
        TokenKind::BangEquals => "'!='"@,
        TokenKind::BraceL => "'{'"@,
        TokenKind::BraceR => "'}'"@,
        TokenKind::BracketL => "'['"@,
        TokenKind::BracketR => "']'"@,
        TokenKind::Colon => "':'"@,
        TokenKind::ColonEquals => "':='"@,
        TokenKind::Comma => "','"@,
        TokenKind::Comment => "comment"@,
        TokenKind::Dedent => "dedent"@,
        TokenKind::Dollar => "'$'"@,
        TokenKind::Eof => "end of file"@,
        TokenKind::Eol => "end of line"@,
        TokenKind::Equals => "'='"@,
        TokenKind::EqualsEquals => "'=='"@,
        TokenKind::Identifier => "identifier"@,
        TokenKind::Indent => "indent"@,
        TokenKind::InterpolationEnd => "'}}'"@,
        TokenKind::InterpolationStart => "'{{'"@,
        TokenKind::ParenL => "'('"@,
        TokenKind::ParenR => "')'"@,
        TokenKind::Plus => "'+'"@,
        TokenKind::StringToken => "string"@,
        TokenKind::Text => "command text"@,
        TokenKind::Unspecified => "unspecified"@,
        TokenKind::Whitespace => "whitespace"@,
    }
}

impl TokenKind {
    /// The canonical display label of this category, total over the closed
    /// set: the same category always yields the same text.
    pub fn label(self) -> (r: &'static str)
        ensures
            r@ == spec_label(self),
    {
        match self {
            TokenKind::Asterisk => "'*'",
            TokenKind::At => "'@'",
            TokenKind::Backtick => "backtick",
            TokenKind::BangEquals => "'!='",
            TokenKind::BraceL => "'{'",
            TokenKind::BraceR => "'}'",
            TokenKind::BracketL => "'['",
            TokenKind::BracketR => "']'",
            TokenKind::Colon => "':'",
            TokenKind::ColonEquals => "':='",
            TokenKind::Comma => "','",
            TokenKind::Comment => "comment",
            TokenKind::Dedent => "dedent",
            TokenKind::Dollar => "'$'",
            TokenKind::Eof => "end of file",
            TokenKind::Eol => "end of line",
            TokenKind::Equals => "'='",
            TokenKind::EqualsEquals => "'=='",
            TokenKind::Identifier => "identifier",
            TokenKind::Indent => "indent",
            TokenKind::InterpolationEnd => "'}}'",
            TokenKind::InterpolationStart => "'{{'",
            TokenKind::ParenL => "'('",
            TokenKind::ParenR => "')'",
            TokenKind::Plus => "'+'",
            TokenKind::StringToken => "string",
            TokenKind::Text => "command text",
            TokenKind::Unspecified => "unspecified",
            TokenKind::Whitespace => "whitespace",
        }
    }
}

} // verus!
