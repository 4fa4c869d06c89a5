//! The string-form classifier: given the raw start of a token, decides which
//! of six quoting conventions opened a string-like literal, and exposes the
//! per-convention rules (delimiter text, escape policy, indentation policy,
//! diagnostic kind on a missing terminator).

use vstd::prelude::*;

use crate::diagnostics::CompilationErrorKind;
use crate::text::seq_starts_with;
use crate::text::str_starts_with;
use crate::token::Token;
use crate::token_kind::TokenKind;

verus! {

#[derive(Debug, PartialEq, Eq, Clone, Copy, Structural)]
pub enum StringDelimiter {
    Backtick,
    QuoteDouble,
    QuoteSingle,
}

#[derive(Debug, PartialEq, Eq, Clone, Copy, Structural)]
pub struct StringKind {
    pub delimiter: StringDelimiter,
    pub indented: bool,
}

/// The exact opening/closing marker of a form: one character for plain
/// forms, three identical characters for indented forms.
pub open spec fn spec_delimiter(kind: StringKind) -> Seq<char> {
    match (kind.delimiter, kind.indented) {
        (StringDelimiter::Backtick, false) => "`"@,
        (StringDelimiter::Backtick, true) => "```"@,
        (StringDelimiter::QuoteDouble, false) => "\""@,
        (StringDelimiter::QuoteDouble, true) => "\"\"\""@,
        (StringDelimiter::QuoteSingle, false) => "'"@,
        (StringDelimiter::QuoteSingle, true) => "'''"@,
    }
}

pub open spec fn spec_delimiter_len(kind: StringKind) -> int {
    if kind.indented {
        3
    } else {
        1
    }
}

pub open spec fn spec_token_kind(kind: StringKind) -> TokenKind {
    match kind.delimiter {
        StringDelimiter::QuoteDouble | StringDelimiter::QuoteSingle => TokenKind::StringToken,
        StringDelimiter::Backtick => TokenKind::Backtick,
    }
}

pub open spec fn spec_unterminated_error_kind(kind: StringKind) -> CompilationErrorKind {
    match kind.delimiter {
        StringDelimiter::QuoteDouble | StringDelimiter::QuoteSingle => {
            CompilationErrorKind::UnterminatedString
        },
        StringDelimiter::Backtick => CompilationErrorKind::UnterminatedBacktick,
    }
}

pub open spec fn spec_processes_escape_sequences(kind: StringKind) -> bool {
    match kind.delimiter {
        StringDelimiter::QuoteDouble => true,
        StringDelimiter::Backtick | StringDelimiter::QuoteSingle => false,
    }
}

/// The canonical classification order. Indented forms must come before the
/// plain forms of the same delimiter character: the indented delimiter text
/// is itself prefixed by the plain delimiter, so trying the plain form first
/// would silently misclassify every indented literal.
pub open spec fn spec_all() -> Seq<StringKind> {
    seq![
        StringKind { delimiter: StringDelimiter::Backtick, indented: true },
        StringKind { delimiter: StringDelimiter::Backtick, indented: false },
        StringKind { delimiter: StringDelimiter::QuoteDouble, indented: true },
        StringKind { delimiter: StringDelimiter::QuoteDouble, indented: false },
        StringKind { delimiter: StringDelimiter::QuoteSingle, indented: true },
        StringKind { delimiter: StringDelimiter::QuoteSingle, indented: false },
    ]
}

/// First form in `kinds` whose delimiter text is a literal prefix of `s`.
pub open spec fn classify_in_order(kinds: Seq<StringKind>, s: Seq<char>) -> Option<StringKind>
    decreases kinds.len(),
{
    if kinds.len() == 0 {
        None
    } else if seq_starts_with(s, spec_delimiter(kinds[0])) {
        Some(kinds[0])
    } else {
        classify_in_order(kinds.drop_first(), s)
    }
}

/// The form that opens a token whose text begins with `s`, or `None` when
/// no delimiter matches.
pub open spec fn spec_classify(s: Seq<char>) -> Option<StringKind> {
    classify_in_order(spec_all(), s)
}

impl StringKind {
    pub fn new(delimiter: StringDelimiter, indented: bool) -> (r: Self)
        ensures
            r == (StringKind { delimiter, indented }),
    {
        Self { delimiter, indented }
    }

    /// The exact opening/closing marker of this form.
    pub fn delimiter(self) -> (r: &'static str)
        ensures
            r@ == spec_delimiter(self),
    {
        match (self.delimiter, self.indented) {
            (StringDelimiter::Backtick, false) => "`",
            (StringDelimiter::Backtick, true) => "```",
            (StringDelimiter::QuoteDouble, false) => "\"",
            (StringDelimiter::QuoteDouble, true) => "\"\"\"",
            (StringDelimiter::QuoteSingle, false) => "'",
            (StringDelimiter::QuoteSingle, true) => "'''",
        }
    }

    /// Length of the delimiter text: three for indented forms, one for
    /// plain forms.
    pub fn delimiter_len(self) -> (r: usize)
        ensures
            r == spec_delimiter_len(self),
            r == spec_delimiter(self).len(),
    {
        proof {
            lemma_delimiter_len_is_delimiter_text_len(self);
        }
        self.delimiter().unicode_len()
    }

    /// The token category a literal of this form belongs to.
    pub fn token_kind(self) -> (r: TokenKind)
        ensures
            r == spec_token_kind(self),
    {
        match self.delimiter {
            StringDelimiter::QuoteDouble | StringDelimiter::QuoteSingle => TokenKind::StringToken,
            StringDelimiter::Backtick => TokenKind::Backtick,
        }
    }

    /// The diagnostic raised when input ends before the closing delimiter.
    pub fn unterminated_error_kind(self) -> (r: CompilationErrorKind)
        ensures
            r == spec_unterminated_error_kind(self),
    {
        match self.delimiter {
            StringDelimiter::QuoteDouble | StringDelimiter::QuoteSingle => {
                CompilationErrorKind::UnterminatedString
            },
            StringDelimiter::Backtick => CompilationErrorKind::UnterminatedBacktick,
        }
    }

    /// Whether escape sequences are interpreted inside the literal body.
    pub fn processes_escape_sequences(self) -> (r: bool)
        ensures
            r == spec_processes_escape_sequences(self),
    {
        match self.delimiter {
            StringDelimiter::QuoteDouble => true,
            StringDelimiter::Backtick | StringDelimiter::QuoteSingle => false,
        }
    }

    /// Whether the literal body has its common leading indentation stripped.
    pub fn indented(self) -> (r: bool)
        ensures
            r == self.indented,
    {
        self.indented
    }

    /// The six forms in canonical classification order, indented before
    /// plain for each delimiter character.
    pub fn all() -> (v: Vec<StringKind>)
        ensures
            v@ == spec_all(),
    {
        let mut v: Vec<StringKind> = Vec::new();
        v.push(StringKind { delimiter: StringDelimiter::Backtick, indented: true });
        v.push(StringKind { delimiter: StringDelimiter::Backtick, indented: false });
        v.push(StringKind { delimiter: StringDelimiter::QuoteDouble, indented: true });
        v.push(StringKind { delimiter: StringDelimiter::QuoteDouble, indented: false });
        v.push(StringKind { delimiter: StringDelimiter::QuoteSingle, indented: true });
        v.push(StringKind { delimiter: StringDelimiter::QuoteSingle, indented: false });
        assert(v@ =~= spec_all());
        v
    }

    /// Classifies the start of a token: the first form, in canonical order,
    /// whose delimiter is a prefix of `token_start`.
    pub fn from_token_start(token_start: &str) -> (r: Option<Self>)
        ensures
            r == spec_classify(token_start@),
    {
        let kinds = Self::all();
        let n: usize = kinds.len();
        let mut i: usize = 0;
        assert(spec_all().skip(0) =~= spec_all());
        while i < n
            invariant
                n == 6,
                i <= n,
                kinds@ == spec_all(),
                classify_in_order(spec_all().skip(i as int), token_start@) == spec_classify(
                    token_start@,
                ),
            decreases n - i,
        {
            let kind = kinds[i];
            if str_starts_with(token_start, kind.delimiter()) {
                assert(spec_all().skip(i as int)[0] == spec_all()[i as int]);
                return Some(kind);
            }
            assert(spec_all().skip(i as int).drop_first() =~= spec_all().skip(i as int + 1));
            i += 1;
        }
        assert(spec_all().skip(6).len() == 0);
        None
    }

    /// Classifies a token that the lexer has already committed to treating
    /// as string-like; a failure to classify is a defect of the lexer's own
    /// dispatch, reported as an internal diagnostic.
    pub fn from_string_or_backtick(token: Token) -> (r: Result<Self, CompilationErrorKind>)
        ensures
            match spec_classify(token.lexeme@) {
                Some(kind) => r == Result::<StringKind, CompilationErrorKind>::Ok(kind),
                None => match r {
                    Result::Err(CompilationErrorKind::Internal { message }) => message@
                        == "StringKind::from_token: Expected String or Backtick"@,
                    _ => false,
                },
            },
    {
        match Self::from_token_start(token.lexeme()) {
            Some(kind) => Ok(kind),
            None => Err(
                CompilationErrorKind::Internal {
                    message: "StringKind::from_token: Expected String or Backtick".to_owned(),
                },
            ),
        }
    }
}

/// The delimiter length reported for a form equals the length of its
/// delimiter text, for all six forms.
pub proof fn lemma_delimiter_len_is_delimiter_text_len(kind: StringKind)
    ensures
        spec_delimiter_len(kind) == spec_delimiter(kind).len(),
{
    reveal_strlit("`");
    reveal_strlit("```");
    reveal_strlit("\"");
    reveal_strlit("\"\"\"");
    reveal_strlit("'");
    reveal_strlit("'''");
}

/// Escape sequences are processed for exactly the two double-quote forms;
/// the single-quote and backtick forms are verbatim.
pub proof fn lemma_escapes_exactly_double_quote(kind: StringKind)
    ensures
        spec_processes_escape_sequences(kind) <==> kind.delimiter == StringDelimiter::QuoteDouble,
{
}

proof fn lemma_first_char_differs(s: Seq<char>, d: Seq<char>)
    requires
        d.len() >= 1,
        s.len() >= 1,
        s[0] != d[0],
    ensures
        !seq_starts_with(s, d),
{
    if d.len() <= s.len() {
        assert(s.subrange(0, d.len() as int)[0] == s[0]);
    }
}

proof fn lemma_classify_skip(kinds: Seq<StringKind>, s: Seq<char>, i: int)
    requires
        0 <= i <= kinds.len(),
        forall|j: int| 0 <= j < i ==> !seq_starts_with(s, spec_delimiter(kinds[j])),
    ensures
        classify_in_order(kinds, s) == classify_in_order(kinds.skip(i), s),
    decreases i,
{
    if i > 0 {
        lemma_classify_skip(kinds, s, i - 1);
        assert(kinds.skip(i - 1)[0] == kinds[i - 1]);
        assert(kinds.skip(i - 1).drop_first() =~= kinds.skip(i));
    } else {
        assert(kinds.skip(0) =~= kinds);
    }
}

/// A text that begins with the delimiter of an indented form classifies to
/// that form: even though the plain form of the same delimiter character
/// also matches such a text, the canonical order tries the indented form
/// first and it wins.
pub proof fn lemma_indented_prefix_classifies(s: Seq<char>, kind: StringKind)
    requires
        kind.indented,
        seq_starts_with(s, spec_delimiter(kind)),
    ensures
        spec_classify(s) == Some(kind),
{
    reveal_strlit("`");
    reveal_strlit("```");
    reveal_strlit("\"");
    reveal_strlit("\"\"\"");
    reveal_strlit("'");
    reveal_strlit("'''");
    let all = spec_all();
    assert(s.subrange(0, 3)[0] == s[0]);
    match kind.delimiter {
        StringDelimiter::Backtick => {
            assert(all.skip(0) =~= all);
            assert(classify_in_order(all, s) == Some(kind));
        },
        StringDelimiter::QuoteDouble => {
            assert(s[0] == '"');
            lemma_first_char_differs(s, "```"@);
            lemma_first_char_differs(s, "`"@);
            lemma_classify_skip(all, s, 2);
            assert(all.skip(2)[0] == kind);
            assert(classify_in_order(all.skip(2), s) == Some(kind));
        },
        StringDelimiter::QuoteSingle => {
            assert(s[0] == '\'');
            lemma_first_char_differs(s, "```"@);
            lemma_first_char_differs(s, "`"@);
            lemma_first_char_differs(s, "\"\"\""@);
            lemma_first_char_differs(s, "\""@);
            lemma_classify_skip(all, s, 4);
            assert(all.skip(4)[0] == kind);
            assert(classify_in_order(all.skip(4), s) == Some(kind));
        },
    }
}

/// A text that begins with the delimiter of a plain form, but not with the
/// tripled delimiter of the matching indented form, classifies to that
/// plain form.
pub proof fn lemma_plain_prefix_classifies(s: Seq<char>, kind: StringKind)
    requires
        !kind.indented,
        seq_starts_with(s, spec_delimiter(kind)),
        !seq_starts_with(
            s,
            spec_delimiter(StringKind { delimiter: kind.delimiter, indented: true }),
        ),
    ensures
        spec_classify(s) == Some(kind),
{
    reveal_strlit("`");
    reveal_strlit("```");
    reveal_strlit("\"");
    reveal_strlit("\"\"\"");
    reveal_strlit("'");
    reveal_strlit("'''");
    let all = spec_all();
    assert(s.subrange(0, 1)[0] == s[0]);
    match kind.delimiter {
        StringDelimiter::Backtick => {
            assert(s[0] == '`');
            lemma_classify_skip(all, s, 1);
            assert(all.skip(1)[0] == kind);
            assert(classify_in_order(all.skip(1), s) == Some(kind));
        },
        StringDelimiter::QuoteDouble => {
            assert(s[0] == '"');
            lemma_first_char_differs(s, "```"@);
            lemma_first_char_differs(s, "`"@);
            lemma_classify_skip(all, s, 3);
            assert(all.skip(3)[0] == kind);
            assert(classify_in_order(all.skip(3), s) == Some(kind));
        },
        StringDelimiter::QuoteSingle => {
            assert(s[0] == '\'');
            lemma_first_char_differs(s, "```"@);
            lemma_first_char_differs(s, "`"@);
            lemma_first_char_differs(s, "\"\"\""@);
            lemma_first_char_differs(s, "\""@);
            lemma_classify_skip(all, s, 5);
            assert(all.skip(5)[0] == kind);
            assert(classify_in_order(all.skip(5), s) == Some(kind));
        },
    }
}

} // verus!
