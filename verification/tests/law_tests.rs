use zinc::engine::{Engine, EngineError};
use zinc::lexer::lexer::Lexer;
use zinc::lexer::token::TokenKind;
use zinc::parser::parser::Parser;
use zinc::runtime::number_literal::parse_number_text;
use zinc::runtime::number_text::js_canonical_number_string;
use zinc::util::interner::{Interner, StringId};

const SOURCES: [&str; 8] = [
    "",
    "   // only a comment",
    "let x = 1; /* two\nlines */ x += 'a\\'b';",
    "`a${`b${c}d`}e` + \u{3c0}\u{e9}t\u{e9} ** 2",
    "\u{2603} \u{1F600} \"open",
    "0x1F 0b1n 1_000.5e-3 .5 5. 'x",
    "a?.b ?? c ??= d >>>= e => ...f",
    "`never closed ${ 1 + ",
];

#[test]
fn token_streams_end_once_and_lie_in_order() {
    for source in SOURCES {
        let mut lexer = Lexer::new(source, Interner::new());
        let tokens = lexer.tokenize();
        let last = tokens.len() - 1;
        let mut end = 0;
        for (i, token) in tokens.iter().enumerate() {
            assert_eq!(token.kind == TokenKind::Eof, i == last, "{}", source);
            assert!(end <= token.span.start, "{}", source);
            assert!(token.span.start <= token.span.end, "{}", source);
            assert!(token.kind == TokenKind::Eof || token.span.start < token.span.end);
            end = token.span.end;
        }
        assert_eq!(end as usize, source.len());
    }
}

#[test]
fn interned_strings_are_kept() {
    let mut interner = Interner::new();
    let kept: Vec<StringId> =
        ["alpha", "beta", "x"].iter().map(|text| interner.intern(text)).collect();
    let source = "let x = alpha + 'gamma'; function beta() { return delta; }";
    let mut lexer = Lexer::new(source, interner);
    let tokens = lexer.tokenize();
    let mut parser = Parser::new(tokens, source, lexer.finish());
    assert!(parser.parse_program().is_ok());
    let (interner, errors) = parser.finish();
    assert!(errors.is_empty());
    let texts: Vec<&str> = kept.iter().map(|id| interner.resolve(*id)).collect();
    assert_eq!(texts, vec!["alpha", "beta", "x"]);
    let mut engine = Engine::new();
    let first = engine.compile_source("first;").ok().unwrap();
    let id = first.constants[0].as_string_id().unwrap();
    for source in ["second;", "break;", "1 +;", "`a${b}`"] {
        let _ = engine.compile_source(source);
        assert_eq!(engine.interner().resolve(id), "first");
    }
}

#[test]
fn bytecode_with_a_jump_too_wide_is_refused() {
    let body = "x = x + 1; ".repeat(4000);
    let mut engine = Engine::new();
    match engine.compile_source(&format!("if (x) {{ {} }}", body)) {
        Err(EngineError::CompileError(text)) => {
            assert_eq!(text, "script too large: a jump offset exceeded the i16 encoding")
        }
        _ => panic!("a compile error was expected"),
    }
    match engine.compile_source(&format!("function big() {{ while (x) {{ {} }} }}", body)) {
        Err(EngineError::CompileError(text)) => assert_eq!(
            text,
            "function 'big' too large: a jump offset exceeded the i16 encoding"
        ),
        _ => panic!("a compile error was expected"),
    }
    assert!(engine.compile_source(&body).is_ok());
    let long = format!("[{}1]", "x, ".repeat(10000));
    for source in [
        format!("function f(a = {}) {{}}", long),
        format!("var [a = {}] = x;", long),
        format!("switch (x) {{ case 1: y; case {}: z; }}", long),
        format!("switch (x) {{ case 1: {} case 2: z; }}", body),
    ] {
        match engine.compile_source(&source) {
            Err(EngineError::CompileError(text)) => {
                assert!(text.ends_with("too large: a jump offset exceeded the i16 encoding"))
            }
            _ => panic!("a compile error was expected"),
        }
    }
}

#[test]
fn number_texts_are_read_back() {
    let samples = [
        0.1,
        1.0,
        -2.5,
        1e21,
        1e-7,
        123456789012345680000.0,
        5e-324,
        f64::MAX,
        f64::MIN_POSITIVE,
        2.2250738585072011e-308,
        -9007199254740993.0,
        0.000001,
        4.35,
        1.7976931348623157e308,
        2f64.powi(-1022),
        2f64.powi(100),
        1.0 / 3.0,
    ];
    for sample in samples {
        let text = js_canonical_number_string(sample.to_bits());
        assert_eq!(parse_number_text(&text), sample.to_bits(), "{}", text);
    }
    assert_eq!(js_canonical_number_string(1e21f64.to_bits()), "1e+21");
    assert_eq!(js_canonical_number_string(1.5e-7f64.to_bits()), "1.5e-7");
}
