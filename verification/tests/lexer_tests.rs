use zinc::lexer::cursor::{is_unicode_id_continue, is_unicode_id_start};
use zinc::lexer::lexer::Lexer;
use zinc::lexer::token::TokenKind;
use zinc::util::interner::Interner;

fn tokenize(source: &str) -> Vec<(TokenKind, &str)> {
    let interner = Interner::new();
    let mut lexer = Lexer::new(source, interner);
    let tokens = lexer.tokenize();
    tokens
        .iter()
        .filter(|t| t.kind != TokenKind::Eof)
        .map(|t| (t.kind, &source[t.span.start as usize..t.span.end as usize]))
        .collect()
}

#[test]
fn test_simple_tokens() {
    let result = tokenize("let x = 1 + 2;");
    assert_eq!(result, vec![
        (TokenKind::Let, "let"),
        (TokenKind::Identifier, "x"),
        (TokenKind::Assign, "="),
        (TokenKind::Number, "1"),
        (TokenKind::Plus, "+"),
        (TokenKind::Number, "2"),
        (TokenKind::Semicolon, ";"),
    ]);
}

#[test]
fn test_keywords() {
    let result = tokenize("if else while for function return var const let class");
    let kinds: Vec<_> = result.iter().map(|(k, _)| *k).collect();
    assert_eq!(kinds, vec![
        TokenKind::If,
        TokenKind::Else,
        TokenKind::While,
        TokenKind::For,
        TokenKind::Function,
        TokenKind::Return,
        TokenKind::Var,
        TokenKind::Const,
        TokenKind::Let,
        TokenKind::Class,
    ]);
}

#[test]
fn test_operators() {
    let result = tokenize("=== !== ** ?. ?? => ...");
    let kinds: Vec<_> = result.iter().map(|(k, _)| *k).collect();
    assert_eq!(kinds, vec![
        TokenKind::EqEqEq,
        TokenKind::NotEqEq,
        TokenKind::StarStar,
        TokenKind::QuestionDot,
        TokenKind::QuestionQuestion,
        TokenKind::Arrow,
        TokenKind::DotDotDot,
    ]);
}

#[test]
fn test_numbers() {
    let result = tokenize("42 3.14 0xFF 0o77 0b1010 1e10 1_000");
    let kinds: Vec<_> = result.iter().map(|(k, _)| *k).collect();
    assert_eq!(kinds, vec![
        TokenKind::Number,
        TokenKind::Number,
        TokenKind::Number,
        TokenKind::Number,
        TokenKind::Number,
        TokenKind::Number,
        TokenKind::Number,
    ]);
}

#[test]
fn test_strings() {
    let result = tokenize(r#""hello" 'world' "esc\"ape""#);
    let kinds: Vec<_> = result.iter().map(|(k, _)| *k).collect();
    assert_eq!(kinds, vec![
        TokenKind::String,
        TokenKind::String,
        TokenKind::String,
    ]);
}

#[test]
fn test_template_literal_no_interpolation() {
    let result = tokenize("`hello world`");
    assert_eq!(result, vec![
        (TokenKind::TemplateLiteralFull, "`hello world`"),
    ]);
}

#[test]
fn test_template_literal_with_interpolation() {
    let result = tokenize("`hello ${name}!`");
    let kinds: Vec<_> = result.iter().map(|(k, _)| *k).collect();
    assert_eq!(kinds, vec![
        TokenKind::TemplateLiteralHead, // `hello ${
        TokenKind::Identifier,          // name
        TokenKind::TemplateLiteralTail,  // }!`
    ]);
}

#[test]
fn test_comments() {
    let result = tokenize("a // comment\nb /* block */ c");
    let kinds: Vec<_> = result.iter().map(|(k, _)| *k).collect();
    assert_eq!(kinds, vec![
        TokenKind::Identifier, // a
        TokenKind::Identifier, // b
        TokenKind::Identifier, // c
    ]);
}

#[test]
fn test_newline_tracking() {
    let interner = Interner::new();
    let mut lexer = Lexer::new("a\nb", interner);
    let tokens = lexer.tokenize();
    assert!(!tokens[0].preceded_by_newline); // a
    assert!(tokens[1].preceded_by_newline);  // b
}

#[test]
fn test_assignment_operators() {
    let result = tokenize("+= -= *= /= %= **= &&= ||= ??= <<= >>= >>>=");
    let kinds: Vec<_> = result.iter().map(|(k, _)| *k).collect();
    assert_eq!(kinds, vec![
        TokenKind::PlusAssign,
        TokenKind::MinusAssign,
        TokenKind::StarAssign,
        TokenKind::SlashAssign,
        TokenKind::PercentAssign,
        TokenKind::StarStarAssign,
        TokenKind::AmpAmpAssign,
        TokenKind::PipePipeAssign,
        TokenKind::QuestionQuestionAssign,
        TokenKind::LtLtAssign,
        TokenKind::GtGtAssign,
        TokenKind::GtGtGtAssign,
    ]);
}

#[test]
fn test_real_code() {
    let source = r#"
        function fibonacci(n) {
            if (n <= 1) return n;
            return fibonacci(n - 1) + fibonacci(n - 2);
        }
        console.log(fibonacci(10));
    "#;
    let result = tokenize(source);
    // Just verify it doesn't crash and produces reasonable number of tokens
    assert!(result.len() > 30);
    assert_eq!(result[0].0, TokenKind::Function);
}

#[test]
fn test_bigint() {
    let result = tokenize("42n 0xFFn 0o77n 0b1010n");
    let kinds: Vec<_> = result.iter().map(|(k, _)| *k).collect();
    assert_eq!(kinds, vec![
        TokenKind::BigInt,
        TokenKind::BigInt,
        TokenKind::BigInt,
        TokenKind::BigInt,
    ]);
}

#[test]
fn identifiers_hold_marks_digits_and_connectors() {
    for source in ["e\u{301}t\u{e9}", "a\u{903}", "x\u{203f}y", "_\u{661}", "\u{212e}x", "a\u{b7}b"] {
        assert_eq!(tokenize(source), vec![(TokenKind::Identifier, source)]);
    }
    assert!(is_unicode_id_continue('\u{0301}'));
    assert!(!is_unicode_id_start('\u{0301}'));
    assert!(!is_unicode_id_start('\u{24b6}'));
    assert!(!is_unicode_id_continue('\u{b2}'));
    assert!(is_unicode_id_continue('\u{1369}'));
    assert!(is_unicode_id_start('\u{2118}'));
    assert!(is_unicode_id_start('\u{2160}'));
    assert!(is_unicode_id_continue('\u{200d}'));
    assert!(!is_unicode_id_continue(' '));
}
