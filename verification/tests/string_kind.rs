use just_core::diagnostics::CompilationErrorKind;
use just_core::string_kind::{StringDelimiter, StringKind};
use just_core::token::Token;
use just_core::token_kind::TokenKind;

fn kind(delimiter: StringDelimiter, indented: bool) -> StringKind {
    StringKind::new(delimiter, indented)
}

#[test]
fn each_delimiter_classifies_to_its_form() {
    let cases = [
        ("`echo hi`", StringDelimiter::Backtick, false),
        ("```\nls\n```", StringDelimiter::Backtick, true),
        ("\"hello\"", StringDelimiter::QuoteDouble, false),
        ("\"\"\"\nhello\n\"\"\"", StringDelimiter::QuoteDouble, true),
        ("'hello'", StringDelimiter::QuoteSingle, false),
        ("'''\nhello\n'''", StringDelimiter::QuoteSingle, true),
    ];
    for (text, delimiter, indented) in cases {
        assert_eq!(
            StringKind::from_token_start(text),
            Some(kind(delimiter, indented)),
            "misclassified {:?}",
            text
        );
    }
}

#[test]
fn indented_form_wins_over_plain() {
    // A triple delimiter also starts with the plain delimiter; the indented
    // form must be chosen.
    let r = StringKind::from_token_start("\"\"\"body\"\"\"").unwrap();
    assert!(r.indented());
    assert_eq!(r, kind(StringDelimiter::QuoteDouble, true));
    let r = StringKind::from_token_start("'''body'''").unwrap();
    assert_eq!(r, kind(StringDelimiter::QuoteSingle, true));
    let r = StringKind::from_token_start("```body```").unwrap();
    assert_eq!(r, kind(StringDelimiter::Backtick, true));
}

#[test]
fn classification_order_is_indented_before_plain() {
    let all = StringKind::all();
    assert_eq!(all.len(), 6);
    for pair in all.chunks(2) {
        assert_eq!(pair[0].delimiter().chars().next(), pair[1].delimiter().chars().next());
        assert!(pair[0].indented());
        assert!(!pair[1].indented());
    }
}

#[test]
fn no_delimiter_classifies_to_none() {
    assert_eq!(StringKind::from_token_start("echo hi"), None);
    assert_eq!(StringKind::from_token_start(""), None);
    assert_eq!(StringKind::from_token_start("x\"y\""), None);
}

#[test]
fn delimiter_text_and_length_agree() {
    let expected = [
        (StringDelimiter::Backtick, false, "`"),
        (StringDelimiter::Backtick, true, "```"),
        (StringDelimiter::QuoteDouble, false, "\""),
        (StringDelimiter::QuoteDouble, true, "\"\"\""),
        (StringDelimiter::QuoteSingle, false, "'"),
        (StringDelimiter::QuoteSingle, true, "'''"),
    ];
    for (delimiter, indented, text) in expected {
        let k = kind(delimiter, indented);
        assert_eq!(k.delimiter(), text);
        assert_eq!(k.delimiter_len(), text.len());
    }
}

#[test]
fn escapes_processed_only_in_double_quotes() {
    assert!(kind(StringDelimiter::QuoteDouble, false).processes_escape_sequences());
    assert!(kind(StringDelimiter::QuoteDouble, true).processes_escape_sequences());
    assert!(!kind(StringDelimiter::QuoteSingle, false).processes_escape_sequences());
    assert!(!kind(StringDelimiter::QuoteSingle, true).processes_escape_sequences());
    assert!(!kind(StringDelimiter::Backtick, false).processes_escape_sequences());
    assert!(!kind(StringDelimiter::Backtick, true).processes_escape_sequences());
}

#[test]
fn token_kind_of_each_form() {
    assert_eq!(kind(StringDelimiter::QuoteDouble, false).token_kind(), TokenKind::StringToken);
    assert_eq!(kind(StringDelimiter::QuoteDouble, true).token_kind(), TokenKind::StringToken);
    assert_eq!(kind(StringDelimiter::QuoteSingle, false).token_kind(), TokenKind::StringToken);
    assert_eq!(kind(StringDelimiter::QuoteSingle, true).token_kind(), TokenKind::StringToken);
    assert_eq!(kind(StringDelimiter::Backtick, false).token_kind(), TokenKind::Backtick);
    assert_eq!(kind(StringDelimiter::Backtick, true).token_kind(), TokenKind::Backtick);
}

#[test]
fn unterminated_error_kind_of_each_form() {
    assert_eq!(
        kind(StringDelimiter::QuoteDouble, false).unterminated_error_kind(),
        CompilationErrorKind::UnterminatedString
    );
    assert_eq!(
        kind(StringDelimiter::QuoteSingle, true).unterminated_error_kind(),
        CompilationErrorKind::UnterminatedString
    );
    assert_eq!(
        kind(StringDelimiter::Backtick, false).unterminated_error_kind(),
        CompilationErrorKind::UnterminatedBacktick
    );
    assert_eq!(
        kind(StringDelimiter::Backtick, true).unterminated_error_kind(),
        CompilationErrorKind::UnterminatedBacktick
    );
}

#[test]
fn from_string_or_backtick_accepts_string_like_tokens() {
    let token = Token { lexeme: "'hi'".to_string() };
    assert_eq!(
        StringKind::from_string_or_backtick(token),
        Ok(kind(StringDelimiter::QuoteSingle, false))
    );
}

#[test]
fn from_string_or_backtick_reports_internal_error() {
    let token = Token { lexeme: "plain".to_string() };
    assert_eq!(
        StringKind::from_string_or_backtick(token),
        Err(CompilationErrorKind::Internal {
            message: "StringKind::from_token: Expected String or Backtick".to_string(),
        })
    );
}
