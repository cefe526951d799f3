//! Lexer-level checks: token classification, numeric edge cases, strings,
//! and lexical error reporting.

use apollo_parser::lexer::Lexer;
use apollo_parser::token::TokenKind;

fn kinds(input: &str) -> Vec<TokenKind> {
    Lexer::new(input).tokens().iter().map(|t| t.kind).collect()
}

fn texts(input: &str) -> Vec<Vec<u8>> {
    Lexer::new(input).tokens().iter().map(|t| t.data().clone()).collect()
}

#[test]
fn tokens_cover_input_exactly() {
    let inputs = [
        "query { a }",
        "1 2.5 -3 -4.5e-6 \"s\" \"\"\"b\"\"\" # c\n...",
        "bad \u{00e9} bytes",
        "0123 1.e 1ee2 -",
    ];
    for input in inputs {
        let lexer = Lexer::new(input);
        let mut joined: Vec<u8> = Vec::new();
        let mut expected_offset = 0usize;
        for t in &lexer.tokens {
            assert_eq!(t.offset as usize, expected_offset, "offset in {:?}", input);
            expected_offset += t.text.len();
            joined.extend_from_slice(&t.text);
        }
        assert_eq!(joined, input.as_bytes().to_vec(), "coverage of {:?}", input);
    }
}

#[test]
fn int_and_float_classification() {
    assert_eq!(kinds("42"), vec![TokenKind::Int]);
    assert_eq!(kinds("-42"), vec![TokenKind::Int]);
    assert_eq!(kinds("0"), vec![TokenKind::Int]);
    assert_eq!(kinds("3.14"), vec![TokenKind::Float]);
    assert_eq!(kinds("-1.5e+3"), vec![TokenKind::Float]);
    assert_eq!(kinds("2E8"), vec![TokenKind::Float]);
}

#[test]
fn malformed_numbers_are_single_errors() {
    // A leading zero, a trailing dot, a number glued to a name, and a bare
    // minus are each one error token covering the whole run.
    for bad in ["0123", "1.", "1e", "5abc", "-", "1.2.3"] {
        let lexer = Lexer::new(bad);
        assert_eq!(
            lexer.tokens.iter().map(|t| t.kind).collect::<Vec<_>>(),
            vec![TokenKind::Error],
            "input {:?}",
            bad
        );
        assert_eq!(lexer.errors.len(), 1, "input {:?}", bad);
        assert_eq!(lexer.errors[0].offset, 0);
        assert_eq!(lexer.errors[0].length as usize, bad.len());
    }
}

#[test]
fn string_escapes() {
    assert_eq!(kinds(r#""a\"b\\c\nA""#), vec![TokenKind::StringValue]);
    let lexer = Lexer::new(r#""bad \q escape""#);
    assert_eq!(
        lexer.tokens().iter().map(|t| t.kind).collect::<Vec<_>>(),
        vec![TokenKind::StringValue]
    );
    assert_eq!(lexer.errors().len(), 1);
    assert_eq!(lexer.errors()[0].offset, 5);
    assert_eq!(lexer.errors()[0].length, 2);
}

#[test]
fn unterminated_strings() {
    let lexer = Lexer::new("\"oops");
    assert_eq!(lexer.tokens.len(), 1);
    assert_eq!(lexer.tokens[0].kind, TokenKind::Error);
    assert_eq!(lexer.errors.len(), 1);

    // A line break ends the scan; the rest lexes on its own.
    let lexer = Lexer::new("\"oops\nnext");
    assert_eq!(lexer.tokens[0].kind, TokenKind::Error);
    assert!(lexer.tokens.iter().any(|t| t.kind == TokenKind::Ident));

    let lexer = Lexer::new("\"\"\"never closed");
    assert_eq!(lexer.tokens[0].kind, TokenKind::Error);
    assert_eq!(lexer.errors.len(), 1);
}

#[test]
fn block_strings_span_lines() {
    assert_eq!(kinds("\"\"\"a\nb\"\"\""), vec![TokenKind::StringValue]);
    // The sole escape: a backslash before a closing triple quote.
    assert_eq!(kinds("\"\"\"a\\\"\"\"b\"\"\""), vec![TokenKind::StringValue]);
    // The empty inline string is not a block string opener.
    assert_eq!(kinds("\"\""), vec![TokenKind::StringValue]);
}

#[test]
fn spread_needs_three_dots() {
    assert_eq!(kinds("..."), vec![TokenKind::Spread]);
    let lexer = Lexer::new("..");
    assert_eq!(lexer.tokens[0].kind, TokenKind::Error);
    assert_eq!(lexer.errors.len(), 1);
    assert_eq!(lexer.errors[0].length, 2);
}

#[test]
fn commas_and_whitespace_are_separate_tokens() {
    assert_eq!(
        kinds(" \t,\n"),
        vec![TokenKind::Whitespace, TokenKind::Comma, TokenKind::Whitespace]
    );
}

#[test]
fn comments_stop_at_line_feed() {
    assert_eq!(
        texts("# note\nx"),
        vec![b"# note".to_vec(), b"\n".to_vec(), b"x".to_vec()]
    );
}

#[test]
fn punctuators_one_each() {
    assert_eq!(
        kinds("!$&()...:=@[]{|}"),
        vec![
            TokenKind::Bang,
            TokenKind::Dollar,
            TokenKind::Amp,
            TokenKind::LParen,
            TokenKind::RParen,
            TokenKind::Spread,
            TokenKind::Colon,
            TokenKind::Eq,
            TokenKind::At,
            TokenKind::LBrack,
            TokenKind::RBrack,
            TokenKind::LCurly,
            TokenKind::Pipe,
            TokenKind::RCurly,
        ]
    );
}

#[test]
fn identifiers_allow_digits_and_underscores() {
    assert_eq!(kinds("_a9_Z"), vec![TokenKind::Ident]);
    // An identifier may not start with a digit: that run is a number error.
    let lexer = Lexer::new("9a");
    assert_eq!(lexer.tokens[0].kind, TokenKind::Error);
}

#[test]
fn stray_bytes_are_reported() {
    let lexer = Lexer::new("a ; b");
    assert_eq!(lexer.errors.len(), 1);
    assert_eq!(lexer.errors[0].offset, 2);
    assert_eq!(lexer.errors[0].length, 1);
}
