//! How punctuators and keywords are spelled, and what that says of every token.

use vstd::prelude::*;
use crate::lexer::cursor;
use crate::lexer::laws;
use crate::lexer::lexer;
use crate::lexer::lexer::{Digits, LexState};
use crate::lexer::token;
use crate::lexer::token::TokenKind;
use crate::runtime::number_literal;

verus! {

/// The characters of a punctuator.
#[verifier::opaque]
pub open spec fn spelling(kind: TokenKind) -> Option<Seq<char>> {
    match kind {
        TokenKind::LParen => Some(seq!['(']),
        TokenKind::RParen => Some(seq![')']),
        TokenKind::LBrace => Some(seq!['{']),
        TokenKind::RBrace => Some(seq!['}']),
        TokenKind::LBracket => Some(seq!['[']),
        TokenKind::RBracket => Some(seq![']']),
        TokenKind::Dot => Some(seq!['.']),
        TokenKind::DotDotDot => Some(seq!['.', '.', '.']),
        TokenKind::Semicolon => Some(seq![';']),
        TokenKind::Comma => Some(seq![',']),
        TokenKind::Colon => Some(seq![':']),
        TokenKind::Question => Some(seq!['?']),
        TokenKind::QuestionDot => Some(seq!['?', '.']),
        TokenKind::QuestionQuestion => Some(seq!['?', '?']),
        TokenKind::Arrow => Some(seq!['=', '>']),
        TokenKind::Hash => Some(seq!['#']),
        TokenKind::Assign => Some(seq!['=']),
        TokenKind::PlusAssign => Some(seq!['+', '=']),
        TokenKind::MinusAssign => Some(seq!['-', '=']),
        TokenKind::StarAssign => Some(seq!['*', '=']),
        TokenKind::SlashAssign => Some(seq!['/', '=']),
        TokenKind::PercentAssign => Some(seq!['%', '=']),
        TokenKind::StarStarAssign => Some(seq!['*', '*', '=']),
        TokenKind::AmpAssign => Some(seq!['&', '=']),
        TokenKind::PipeAssign => Some(seq!['|', '=']),
        TokenKind::CaretAssign => Some(seq!['^', '=']),
        TokenKind::LtLtAssign => Some(seq!['<', '<', '=']),
        TokenKind::GtGtAssign => Some(seq!['>', '>', '=']),
        TokenKind::GtGtGtAssign => Some(seq!['>', '>', '>', '=']),
        TokenKind::AmpAmpAssign => Some(seq!['&', '&', '=']),
        TokenKind::PipePipeAssign => Some(seq!['|', '|', '=']),
        TokenKind::QuestionQuestionAssign => Some(seq!['?', '?', '=']),
        TokenKind::Plus => Some(seq!['+']),
        TokenKind::Minus => Some(seq!['-']),
        TokenKind::Star => Some(seq!['*']),
        TokenKind::Slash => Some(seq!['/']),
        TokenKind::Percent => Some(seq!['%']),
        TokenKind::StarStar => Some(seq!['*', '*']),
        TokenKind::PlusPlus => Some(seq!['+', '+']),
        TokenKind::MinusMinus => Some(seq!['-', '-']),
        TokenKind::EqEq => Some(seq!['=', '=']),
        TokenKind::NotEq => Some(seq!['!', '=']),
        TokenKind::EqEqEq => Some(seq!['=', '=', '=']),
        TokenKind::NotEqEq => Some(seq!['!', '=', '=']),
        TokenKind::Lt => Some(seq!['<']),
        TokenKind::Gt => Some(seq!['>']),
        TokenKind::LtEq => Some(seq!['<', '=']),
        TokenKind::GtEq => Some(seq!['>', '=']),
        TokenKind::Amp => Some(seq!['&']),
        TokenKind::Pipe => Some(seq!['|']),
        TokenKind::Caret => Some(seq!['^']),
        TokenKind::Tilde => Some(seq!['~']),
        TokenKind::LtLt => Some(seq!['<', '<']),
        TokenKind::GtGt => Some(seq!['>', '>']),
        TokenKind::GtGtGt => Some(seq!['>', '>', '>']),
        TokenKind::AmpAmp => Some(seq!['&', '&']),
        TokenKind::PipePipe => Some(seq!['|', '|']),
        TokenKind::Bang => Some(seq!['!']),
        _ => None,
    }
}

/// The text of a keyword.
#[verifier::opaque]
pub open spec fn keyword_text(kind: TokenKind) -> Option<Seq<char>> {
    match kind {
        TokenKind::Await => Some("await"@),
        TokenKind::Break => Some("break"@),
        TokenKind::Case => Some("case"@),
        TokenKind::Catch => Some("catch"@),
        TokenKind::Class => Some("class"@),
        TokenKind::Const => Some("const"@),
        TokenKind::Continue => Some("continue"@),
        TokenKind::Debugger => Some("debugger"@),
        TokenKind::Default => Some("default"@),
        TokenKind::Delete => Some("delete"@),
        TokenKind::Do => Some("do"@),
        TokenKind::Else => Some("else"@),
        TokenKind::Enum => Some("enum"@),
        TokenKind::Export => Some("export"@),
        TokenKind::Extends => Some("extends"@),
        TokenKind::Finally => Some("finally"@),
        TokenKind::For => Some("for"@),
        TokenKind::Function => Some("function"@),
        TokenKind::If => Some("if"@),
        TokenKind::Import => Some("import"@),
        TokenKind::In => Some("in"@),
        TokenKind::Instanceof => Some("instanceof"@),
        TokenKind::Let => Some("let"@),
        TokenKind::New => Some("new"@),
        TokenKind::Of => Some("of"@),
        TokenKind::Return => Some("return"@),
        TokenKind::Super => Some("super"@),
        TokenKind::Switch => Some("switch"@),
        TokenKind::This => Some("this"@),
        TokenKind::Throw => Some("throw"@),
        TokenKind::Try => Some("try"@),
        TokenKind::Typeof => Some("typeof"@),
        TokenKind::Var => Some("var"@),
        TokenKind::Void => Some("void"@),
        TokenKind::While => Some("while"@),
        TokenKind::With => Some("with"@),
        TokenKind::Yield => Some("yield"@),
        TokenKind::Implements => Some("implements"@),
        TokenKind::Interface => Some("interface"@),
        TokenKind::Package => Some("package"@),
        TokenKind::Private => Some("private"@),
        TokenKind::Protected => Some("protected"@),
        TokenKind::Public => Some("public"@),
        TokenKind::Static => Some("static"@),
        TokenKind::True => Some("true"@),
        TokenKind::False => Some("false"@),
        TokenKind::Null => Some("null"@),
        TokenKind::Undefined => Some("undefined"@),
        _ => None,
    }
}

/// Whether characters stand in the text at a position.
pub open spec fn stands_at(bytes: Seq<u8>, pos: int, text: Seq<char>) -> bool {
    &&& 0 <= pos
    &&& pos + text.len() <= bytes.len()
    &&& forall|i: int| 0 <= i < text.len() ==> bytes[pos + i] as char == #[trigger] text[i]
}

proof fn lemma_stands(bytes: Seq<u8>, pos: int, text: Seq<char>)
    requires
        0 <= pos,
        text.len() <= 4,
    ensures
        stands_at(bytes, pos, text) <==> {
            &&& pos + text.len() <= bytes.len()
            &&& text.len() > 0 ==> bytes[pos] as char == text[0]
            &&& text.len() > 1 ==> bytes[pos + 1] as char == text[1]
            &&& text.len() > 2 ==> bytes[pos + 2] as char == text[2]
            &&& text.len() > 3 ==> bytes[pos + 3] as char == text[3]
        },
{
    if stands_at(bytes, pos, text) {
        assert(text.len() > 0 ==> bytes[pos + 0] as char == text[0]);
    }
}

/// The punctuator that is read is the longest that stands there: its text is the spelling of
/// its kind, and no punctuator with a longer spelling starts at the same position. Where none
/// stands, one byte is read as an error.
#[verifier::spinoff_prover]
#[verifier::rlimit(60)]
pub proof fn law_longest_punctuator(s: LexState, newline: bool, other: TokenKind)
    requires
        0 <= s.pos < s.bytes.len(),
    ensures
        ({
            let (next, token) = s.punct(newline);
            &&& token == lexer::token_at(token.kind, s.pos, next.pos, newline)
            &&& next.bytes == s.bytes
            &&& match spelling(token.kind) {
                Some(text) => {
                    &&& next.pos == s.pos + text.len()
                    &&& stands_at(s.bytes, s.pos, text)
                    &&& spelling(other) matches Some(longer) ==> (stands_at(s.bytes, s.pos, longer)
                        ==> longer.len() <= text.len())
                },
                None => {
                    &&& token.kind == TokenKind::Error
                    &&& next.pos == s.pos + 1
                    &&& spelling(other) matches Some(text) ==> !stands_at(s.bytes, s.pos, text)
                },
            }
        }),
{
    reveal(spelling);
    let (next, token) = s.punct(newline);
    if let Some(text) = spelling(token.kind) {
        lemma_stands(s.bytes, s.pos, text);
    }
    if let Some(text) = spelling(other) {
        lemma_stands(s.bytes, s.pos, text);
    }
}

/// Punctuators are spelled differently.
pub proof fn law_spellings_differ(a: TokenKind, b: TokenKind)
    requires
        spelling(a) is Some,
        spelling(a) == spelling(b),
    ensures
        a == b,
{
    reveal(spelling);
    let (x, y) = (spelling(a)->0, spelling(b)->0);
    assert(x.len() == y.len());
    assert(x[0] == y[0]);
    assert(x.len() > 1 ==> x[1] == y[1]);
    assert(x.len() > 2 ==> x[2] == y[2]);
    assert(x.len() > 3 ==> x[3] == y[3]);
}

#[verifier::spinoff_prover]
#[verifier::rlimit(50)]
proof fn lemma_keyword_texts(kind: TokenKind)
    requires
        keyword_text(kind) is Some,
    ensures
        token::keyword_of(keyword_text(kind)->0) == Some(kind),
{
    reveal(keyword_text);
    reveal_strlit("await");
    reveal_strlit("break");
    reveal_strlit("case");
    reveal_strlit("catch");
    reveal_strlit("class");
    reveal_strlit("const");
    reveal_strlit("continue");
    reveal_strlit("debugger");
    reveal_strlit("default");
    reveal_strlit("delete");
    reveal_strlit("do");
    reveal_strlit("else");
    reveal_strlit("enum");
    reveal_strlit("export");
    reveal_strlit("extends");
    reveal_strlit("false");
    reveal_strlit("finally");
    reveal_strlit("for");
    reveal_strlit("function");
    reveal_strlit("if");
    reveal_strlit("import");
    reveal_strlit("in");
    reveal_strlit("instanceof");
    reveal_strlit("let");
    reveal_strlit("new");
    reveal_strlit("null");
    reveal_strlit("of");
    reveal_strlit("return");
    reveal_strlit("super");
    reveal_strlit("switch");
    reveal_strlit("this");
    reveal_strlit("throw");
    reveal_strlit("true");
    reveal_strlit("try");
    reveal_strlit("typeof");
    reveal_strlit("undefined");
    reveal_strlit("var");
    reveal_strlit("void");
    reveal_strlit("while");
    reveal_strlit("with");
    reveal_strlit("yield");
    reveal_strlit("implements");
    reveal_strlit("interface");
    reveal_strlit("package");
    reveal_strlit("private");
    reveal_strlit("protected");
    reveal_strlit("public");
    reveal_strlit("static");
    assert("await"@.len() == 5);
    assert("break"@.len() == 5);
    assert("case"@.len() == 4);
    assert("catch"@.len() == 5);
    assert("class"@.len() == 5);
    assert("const"@.len() == 5);
    assert("continue"@.len() == 8);
    assert("debugger"@.len() == 8);
    assert("default"@.len() == 7);
    assert("delete"@.len() == 6);
    assert("do"@.len() == 2);
    assert("else"@.len() == 4);
    assert("enum"@.len() == 4);
    assert("export"@.len() == 6);
    assert("extends"@.len() == 7);
    assert("false"@.len() == 5);
    assert("finally"@.len() == 7);
    assert("for"@.len() == 3);
    assert("function"@.len() == 8);
    assert("if"@.len() == 2);
    assert("import"@.len() == 6);
    assert("in"@.len() == 2);
    assert("instanceof"@.len() == 10);
    assert("let"@.len() == 3);
    assert("new"@.len() == 3);
    assert("null"@.len() == 4);
    assert("of"@.len() == 2);
    assert("return"@.len() == 6);
    assert("super"@.len() == 5);
    assert("switch"@.len() == 6);
    assert("this"@.len() == 4);
    assert("throw"@.len() == 5);
    assert("true"@.len() == 4);
    assert("try"@.len() == 3);
    assert("typeof"@.len() == 6);
    assert("undefined"@.len() == 9);
    assert("var"@.len() == 3);
    assert("void"@.len() == 4);
    assert("while"@.len() == 5);
    assert("with"@.len() == 4);
    assert("yield"@.len() == 5);
    assert("implements"@.len() == 10);
    assert("interface"@.len() == 9);
    assert("package"@.len() == 7);
    assert("private"@.len() == 7);
    assert("protected"@.len() == 9);
    assert("public"@.len() == 6);
    assert("static"@.len() == 6);
    match kind {
        TokenKind::Await => {
            assert(keyword_text(kind) == Some("await"@));
            assert(token::keyword_of("await"@) == Some(TokenKind::Await));
        },
        TokenKind::Break => {
            assert("break"@[0] != "await"@[0]);
            assert(keyword_text(kind) == Some("break"@));
            assert(token::keyword_of("break"@) == Some(TokenKind::Break));
        },
        TokenKind::Case => {
            assert(keyword_text(kind) == Some("case"@));
            assert(token::keyword_of("case"@) == Some(TokenKind::Case));
        },
        TokenKind::Catch => {
            assert("catch"@[0] != "await"@[0]);
            assert("catch"@[0] != "break"@[0]);
            assert(keyword_text(kind) == Some("catch"@));
            assert(token::keyword_of("catch"@) == Some(TokenKind::Catch));
        },
        TokenKind::Class => {
            assert("class"@[0] != "await"@[0]);
            assert("class"@[0] != "break"@[0]);
            assert("class"@[1] != "catch"@[1]);
            assert(keyword_text(kind) == Some("class"@));
            assert(token::keyword_of("class"@) == Some(TokenKind::Class));
        },
        TokenKind::Const => {
            assert("const"@[0] != "await"@[0]);
            assert("const"@[0] != "break"@[0]);
            assert("const"@[1] != "catch"@[1]);
            assert("const"@[1] != "class"@[1]);
            assert(keyword_text(kind) == Some("const"@));
            assert(token::keyword_of("const"@) == Some(TokenKind::Const));
        },
        TokenKind::Continue => {
            assert(keyword_text(kind) == Some("continue"@));
            assert(token::keyword_of("continue"@) == Some(TokenKind::Continue));
        },
        TokenKind::Debugger => {
            assert("debugger"@[0] != "continue"@[0]);
            assert(keyword_text(kind) == Some("debugger"@));
            assert(token::keyword_of("debugger"@) == Some(TokenKind::Debugger));
        },
        TokenKind::Default => {
            assert(keyword_text(kind) == Some("default"@));
            assert(token::keyword_of("default"@) == Some(TokenKind::Default));
        },
        TokenKind::Delete => {
            assert(keyword_text(kind) == Some("delete"@));
            assert(token::keyword_of("delete"@) == Some(TokenKind::Delete));
        },
        TokenKind::Do => {
            assert(keyword_text(kind) == Some("do"@));
            assert(token::keyword_of("do"@) == Some(TokenKind::Do));
        },
        TokenKind::Else => {
            assert("else"@[0] != "case"@[0]);
            assert(keyword_text(kind) == Some("else"@));
            assert(token::keyword_of("else"@) == Some(TokenKind::Else));
        },
        TokenKind::Enum => {
            assert("enum"@[0] != "case"@[0]);
            assert("enum"@[1] != "else"@[1]);
            assert(keyword_text(kind) == Some("enum"@));
            assert(token::keyword_of("enum"@) == Some(TokenKind::Enum));
        },
        TokenKind::Export => {
            assert("export"@[0] != "delete"@[0]);
            assert(keyword_text(kind) == Some("export"@));
            assert(token::keyword_of("export"@) == Some(TokenKind::Export));
        },
        TokenKind::Extends => {
            assert("extends"@[0] != "default"@[0]);
            assert(keyword_text(kind) == Some("extends"@));
            assert(token::keyword_of("extends"@) == Some(TokenKind::Extends));
        },
        TokenKind::False => {
            assert("false"@[0] != "await"@[0]);
            assert("false"@[0] != "break"@[0]);
            assert("false"@[0] != "catch"@[0]);
            assert("false"@[0] != "class"@[0]);
            assert("false"@[0] != "const"@[0]);
            assert(keyword_text(kind) == Some("false"@));
            assert(token::keyword_of("false"@) == Some(TokenKind::False));
        },
        TokenKind::Finally => {
            assert("finally"@[0] != "default"@[0]);
            assert("finally"@[0] != "extends"@[0]);
            assert(keyword_text(kind) == Some("finally"@));
            assert(token::keyword_of("finally"@) == Some(TokenKind::Finally));
        },
        TokenKind::For => {
            assert(keyword_text(kind) == Some("for"@));
            assert(token::keyword_of("for"@) == Some(TokenKind::For));
        },
        TokenKind::Function => {
            assert("function"@[0] != "continue"@[0]);
            assert("function"@[0] != "debugger"@[0]);
            assert(keyword_text(kind) == Some("function"@));
            assert(token::keyword_of("function"@) == Some(TokenKind::Function));
        },
        TokenKind::If => {
            assert("if"@[0] != "do"@[0]);
            assert(keyword_text(kind) == Some("if"@));
            assert(token::keyword_of("if"@) == Some(TokenKind::If));
        },
        TokenKind::Import => {
            assert("import"@[0] != "delete"@[0]);
            assert("import"@[0] != "export"@[0]);
            assert(keyword_text(kind) == Some("import"@));
            assert(token::keyword_of("import"@) == Some(TokenKind::Import));
        },
        TokenKind::In => {
            assert("in"@[0] != "do"@[0]);
            assert("in"@[1] != "if"@[1]);
            assert(keyword_text(kind) == Some("in"@));
            assert(token::keyword_of("in"@) == Some(TokenKind::In));
        },
        TokenKind::Instanceof => {
            assert(keyword_text(kind) == Some("instanceof"@));
            assert(token::keyword_of("instanceof"@) == Some(TokenKind::Instanceof));
        },
        TokenKind::Let => {
            assert("let"@[0] != "for"@[0]);
            assert(keyword_text(kind) == Some("let"@));
            assert(token::keyword_of("let"@) == Some(TokenKind::Let));
        },
        TokenKind::New => {
            assert("new"@[0] != "for"@[0]);
            assert("new"@[0] != "let"@[0]);
            assert(keyword_text(kind) == Some("new"@));
            assert(token::keyword_of("new"@) == Some(TokenKind::New));
        },
        TokenKind::Null => {
            assert("null"@[0] != "case"@[0]);
            assert("null"@[0] != "else"@[0]);
            assert("null"@[0] != "enum"@[0]);
            assert(keyword_text(kind) == Some("null"@));
            assert(token::keyword_of("null"@) == Some(TokenKind::Null));
        },
        TokenKind::Of => {
            assert("of"@[0] != "do"@[0]);
            assert("of"@[0] != "if"@[0]);
            assert("of"@[0] != "in"@[0]);
            assert(keyword_text(kind) == Some("of"@));
            assert(token::keyword_of("of"@) == Some(TokenKind::Of));
        },
        TokenKind::Return => {
            assert("return"@[0] != "delete"@[0]);
            assert("return"@[0] != "export"@[0]);
            assert("return"@[0] != "import"@[0]);
            assert(keyword_text(kind) == Some("return"@));
            assert(token::keyword_of("return"@) == Some(TokenKind::Return));
        },
        TokenKind::Super => {
            assert("super"@[0] != "await"@[0]);
            assert("super"@[0] != "break"@[0]);
            assert("super"@[0] != "catch"@[0]);
            assert("super"@[0] != "class"@[0]);
            assert("super"@[0] != "const"@[0]);
            assert("super"@[0] != "false"@[0]);
            assert(keyword_text(kind) == Some("super"@));
            assert(token::keyword_of("super"@) == Some(TokenKind::Super));
        },
        TokenKind::Switch => {
            assert("switch"@[0] != "delete"@[0]);
            assert("switch"@[0] != "export"@[0]);
            assert("switch"@[0] != "import"@[0]);
            assert("switch"@[0] != "return"@[0]);
            assert(keyword_text(kind) == Some("switch"@));
            assert(token::keyword_of("switch"@) == Some(TokenKind::Switch));
        },
        TokenKind::This => {
            assert("this"@[0] != "case"@[0]);
            assert("this"@[0] != "else"@[0]);
            assert("this"@[0] != "enum"@[0]);
            assert("this"@[0] != "null"@[0]);
            assert(keyword_text(kind) == Some("this"@));
            assert(token::keyword_of("this"@) == Some(TokenKind::This));
        },
        TokenKind::Throw => {
            assert("throw"@[0] != "await"@[0]);
            assert("throw"@[0] != "break"@[0]);
            assert("throw"@[0] != "catch"@[0]);
            assert("throw"@[0] != "class"@[0]);
            assert("throw"@[0] != "const"@[0]);
            assert("throw"@[0] != "false"@[0]);
            assert("throw"@[0] != "super"@[0]);
            assert(keyword_text(kind) == Some("throw"@));
            assert(token::keyword_of("throw"@) == Some(TokenKind::Throw));
        },
        TokenKind::True => {
            assert("true"@[0] != "case"@[0]);
            assert("true"@[0] != "else"@[0]);
            assert("true"@[0] != "enum"@[0]);
            assert("true"@[0] != "null"@[0]);
            assert("true"@[1] != "this"@[1]);
            assert(keyword_text(kind) == Some("true"@));
            assert(token::keyword_of("true"@) == Some(TokenKind::True));
        },
        TokenKind::Try => {
            assert("try"@[0] != "for"@[0]);
            assert("try"@[0] != "let"@[0]);
            assert("try"@[0] != "new"@[0]);
            assert(keyword_text(kind) == Some("try"@));
            assert(token::keyword_of("try"@) == Some(TokenKind::Try));
        },
        TokenKind::Typeof => {
            assert("typeof"@[0] != "delete"@[0]);
            assert("typeof"@[0] != "export"@[0]);
            assert("typeof"@[0] != "import"@[0]);
            assert("typeof"@[0] != "return"@[0]);
            assert("typeof"@[0] != "switch"@[0]);
            assert(keyword_text(kind) == Some("typeof"@));
            assert(token::keyword_of("typeof"@) == Some(TokenKind::Typeof));
        },
        TokenKind::Undefined => {
            assert(keyword_text(kind) == Some("undefined"@));
            assert(token::keyword_of("undefined"@) == Some(TokenKind::Undefined));
        },
        TokenKind::Var => {
            assert("var"@[0] != "for"@[0]);
            assert("var"@[0] != "let"@[0]);
            assert("var"@[0] != "new"@[0]);
            assert("var"@[0] != "try"@[0]);
            assert(keyword_text(kind) == Some("var"@));
            assert(token::keyword_of("var"@) == Some(TokenKind::Var));
        },
        TokenKind::Void => {
            assert("void"@[0] != "case"@[0]);
            assert("void"@[0] != "else"@[0]);
            assert("void"@[0] != "enum"@[0]);
            assert("void"@[0] != "null"@[0]);
            assert("void"@[0] != "this"@[0]);
            assert("void"@[0] != "true"@[0]);
            assert(keyword_text(kind) == Some("void"@));
            assert(token::keyword_of("void"@) == Some(TokenKind::Void));
        },
        TokenKind::While => {
            assert("while"@[0] != "await"@[0]);
            assert("while"@[0] != "break"@[0]);
            assert("while"@[0] != "catch"@[0]);
            assert("while"@[0] != "class"@[0]);
            assert("while"@[0] != "const"@[0]);
            assert("while"@[0] != "false"@[0]);
            assert("while"@[0] != "super"@[0]);
            assert("while"@[0] != "throw"@[0]);
            assert(keyword_text(kind) == Some("while"@));
            assert(token::keyword_of("while"@) == Some(TokenKind::While));
        },
        TokenKind::With => {
            assert("with"@[0] != "case"@[0]);
            assert("with"@[0] != "else"@[0]);
            assert("with"@[0] != "enum"@[0]);
            assert("with"@[0] != "null"@[0]);
            assert("with"@[0] != "this"@[0]);
            assert("with"@[0] != "true"@[0]);
            assert("with"@[0] != "void"@[0]);
            assert(keyword_text(kind) == Some("with"@));
            assert(token::keyword_of("with"@) == Some(TokenKind::With));
        },
        TokenKind::Yield => {
            assert("yield"@[0] != "await"@[0]);
            assert("yield"@[0] != "break"@[0]);
            assert("yield"@[0] != "catch"@[0]);
            assert("yield"@[0] != "class"@[0]);
            assert("yield"@[0] != "const"@[0]);
            assert("yield"@[0] != "false"@[0]);
            assert("yield"@[0] != "super"@[0]);
            assert("yield"@[0] != "throw"@[0]);
            assert("yield"@[0] != "while"@[0]);
            assert(keyword_text(kind) == Some("yield"@));
            assert(token::keyword_of("yield"@) == Some(TokenKind::Yield));
        },
        TokenKind::Implements => {
            assert("implements"@[1] != "instanceof"@[1]);
            assert(keyword_text(kind) == Some("implements"@));
            assert(token::keyword_of("implements"@) == Some(TokenKind::Implements));
        },
        TokenKind::Interface => {
            assert("interface"@[0] != "undefined"@[0]);
            assert(keyword_text(kind) == Some("interface"@));
            assert(token::keyword_of("interface"@) == Some(TokenKind::Interface));
        },
        TokenKind::Package => {
            assert("package"@[0] != "default"@[0]);
            assert("package"@[0] != "extends"@[0]);
            assert("package"@[0] != "finally"@[0]);
            assert(keyword_text(kind) == Some("package"@));
            assert(token::keyword_of("package"@) == Some(TokenKind::Package));
        },
        TokenKind::Private => {
            assert("private"@[0] != "default"@[0]);
            assert("private"@[0] != "extends"@[0]);
            assert("private"@[0] != "finally"@[0]);
            assert("private"@[1] != "package"@[1]);
            assert(keyword_text(kind) == Some("private"@));
            assert(token::keyword_of("private"@) == Some(TokenKind::Private));
        },
        TokenKind::Protected => {
            assert("protected"@[0] != "undefined"@[0]);
            assert("protected"@[0] != "interface"@[0]);
            assert(keyword_text(kind) == Some("protected"@));
            assert(token::keyword_of("protected"@) == Some(TokenKind::Protected));
        },
        TokenKind::Public => {
            assert("public"@[0] != "delete"@[0]);
            assert("public"@[0] != "export"@[0]);
            assert("public"@[0] != "import"@[0]);
            assert("public"@[0] != "return"@[0]);
            assert("public"@[0] != "switch"@[0]);
            assert("public"@[0] != "typeof"@[0]);
            assert(keyword_text(kind) == Some("public"@));
            assert(token::keyword_of("public"@) == Some(TokenKind::Public));
        },
        TokenKind::Static => {
            assert("static"@[0] != "delete"@[0]);
            assert("static"@[0] != "export"@[0]);
            assert("static"@[0] != "import"@[0]);
            assert("static"@[0] != "return"@[0]);
            assert("static"@[1] != "switch"@[1]);
            assert("static"@[0] != "typeof"@[0]);
            assert("static"@[0] != "public"@[0]);
            assert(keyword_text(kind) == Some("static"@));
            assert(token::keyword_of("static"@) == Some(TokenKind::Static));
        },
        _ => {},
    }
}

/// A text is a keyword just where it is the text of the keyword's kind.
pub proof fn law_keywords(text: Seq<char>, kind: TokenKind)
    ensures
        token::keyword_of(text) == Some(kind) <==> keyword_text(kind) == Some(text),
{
    if keyword_text(kind) is Some {
        lemma_keyword_texts(kind);
    }
    if token::keyword_of(text) == Some(kind) {
        reveal(keyword_text);
    }
}

/// What a token is follows from its text: a punctuator has the text that spells it, a keyword
/// its word, and an identifier is no keyword.
pub proof fn law_token_text(s: LexState, newline: bool)
    requires
        laws::valid(s),
        s.pos < s.bytes.len(),
    ensures
        ({
            let (next, token) = s.token(newline);
            let text = cursor::text_between(s.bytes, s.pos, next.pos);
            &&& spelling(token.kind) matches Some(written) ==> next.pos == s.pos + written.len()
                && stands_at(s.bytes, s.pos, written)
            &&& keyword_text(token.kind) matches Some(word) ==> text == word
            &&& token.kind == TokenKind::Identifier ==> token::keyword_of(text) is None
        }),
{
    let (next, token) = s.token(newline);
    let text = cursor::text_between(s.bytes, s.pos, next.pos);
    if let Some(kind) = token::keyword_of(text) {
        law_keywords(text, kind);
    }
    law_longest_punctuator(s, newline, token.kind);
    lemma_classes(token.kind);
}

proof fn lemma_classes(kind: TokenKind)
    ensures
        spelling(kind) is Some ==> keyword_text(kind) is None,
        match kind {
            TokenKind::Number
            | TokenKind::BigInt
            | TokenKind::String
            | TokenKind::TemplateLiteralHead
            | TokenKind::TemplateLiteralMiddle
            | TokenKind::TemplateLiteralTail
            | TokenKind::TemplateLiteralFull
            | TokenKind::Identifier
            | TokenKind::Error => spelling(kind) is None && keyword_text(kind) is None,
            _ => true,
        },
{
    reveal(spelling);
    reveal(keyword_text);
}

/// Whether a byte ends a line.
pub open spec fn ends_line(b: u8) -> bool {
    b as char == '\n' || b as char == '\r'
}

/// Whether a line ends between two positions.
pub open spec fn line_ends_between(bytes: Seq<u8>, from: int, to: int) -> bool {
    exists|i: int| from <= i < to && ends_line(#[trigger] bytes[i])
}

proof fn lemma_block(bytes: Seq<u8>, pos: int)
    requires
        0 <= pos <= bytes.len(),
    ensures
        lexer::block_end(bytes, pos).1 == line_ends_between(
            bytes,
            pos,
            lexer::block_end(bytes, pos).0,
        ),
    decreases bytes.len() - pos,
{
    if pos < bytes.len() {
        lexer::lemma_comment_ends(bytes, pos);
        if bytes[pos] == 42 && cursor::byte_at(bytes, pos + 1) == Some(47u8) {
        } else {
            lemma_block(bytes, pos + 1);
            lexer::lemma_comment_ends(bytes, pos + 1);
            assert(bytes[pos] == 10 || bytes[pos] == 13 <==> ends_line(bytes[pos]));
        }
    }
}

proof fn lemma_line(bytes: Seq<u8>, pos: int)
    requires
        0 <= pos <= bytes.len(),
    ensures
        !line_ends_between(bytes, pos, lexer::line_end(bytes, pos)),
    decreases bytes.len() - pos,
{
    if pos < bytes.len() {
        lemma_line(bytes, pos + 1);
    }
}

proof fn lemma_between(bytes: Seq<u8>, a: int, b: int, c: int)
    requires
        a <= b <= c,
    ensures
        line_ends_between(bytes, a, c) == (line_ends_between(bytes, a, b) || line_ends_between(
            bytes,
            b,
            c,
        )),
{
}

proof fn lemma_blank(bytes: Seq<u8>, pos: int, newline: bool)
    requires
        0 <= pos <= bytes.len(),
    ensures
        ({
            let (end, seen) = lexer::blank_end(bytes, pos, newline);
            &&& pos <= end <= bytes.len()
            &&& seen == (newline || line_ends_between(bytes, pos, end))
            &&& end < bytes.len() ==> {
                &&& bytes[end] as char != ' '
                &&& bytes[end] as char != '\t'
                &&& !ends_line(bytes[end])
                &&& !stands_at(bytes, end, seq!['/', '/'])
                &&& !stands_at(bytes, end, seq!['/', '*'])
            }
        }),
    decreases bytes.len() - pos,
{
    let (end, seen) = lexer::blank_end(bytes, pos, newline);
    if pos < bytes.len() {
        let next = cursor::byte_at(bytes, pos + 1);
        let b = bytes[pos];
        if b == 32 || b == 9 || b == 10 {
            lemma_blank(bytes, pos + 1, newline || b == 10);
            lemma_between(bytes, pos, pos + 1, end);
        } else if b == 13 {
            let n: int = if next == Some(10u8) {
                2
            } else {
                1
            };
            lemma_blank(bytes, pos + n, true);
            lemma_between(bytes, pos, pos + n, end);
        } else if b == 0xC2 && next == Some(0xA0u8) {
            lemma_blank(bytes, pos + 2, newline);
            lemma_between(bytes, pos, pos + 2, end);
        } else if b == 47 && next == Some(47u8) {
            lexer::lemma_comment_ends(bytes, pos + 2);
            lemma_line(bytes, pos + 2);
            let mid = lexer::line_end(bytes, pos + 2);
            lemma_blank(bytes, mid, newline);
            lemma_between(bytes, pos, pos + 2, mid);
            lemma_between(bytes, pos, mid, end);
        } else if b == 47 && next == Some(42u8) {
            lexer::lemma_comment_ends(bytes, pos + 2);
            lemma_block(bytes, pos + 2);
            let (mid, inside) = lexer::block_end(bytes, pos + 2);
            lemma_blank(bytes, mid, newline || inside);
            lemma_between(bytes, pos, pos + 2, mid);
            lemma_between(bytes, pos, mid, end);
        } else {
            lemma_stands(bytes, pos, seq!['/', '/']);
            lemma_stands(bytes, pos, seq!['/', '*']);
        }
    }
}

/// A token is noted to start on a new line just where a line ends between the token before
/// and it, in blanks or in comments. No blank and no comment starts where a token does.
pub proof fn law_newline_noted(s: LexState)
    requires
        laws::valid(s),
        s.bytes.len() <= u32::MAX,
    ensures
        ({
            let (next, token) = s.next();
            let start = token.span.start as int;
            &&& token.preceded_by_newline == (s.newline || line_ends_between(
                s.bytes,
                s.pos,
                start,
            ))
            &&& start < s.bytes.len() ==> {
                &&& s.bytes[start] as char != ' '
                &&& s.bytes[start] as char != '\t'
                &&& !ends_line(s.bytes[start])
                &&& !stands_at(s.bytes, start, seq!['/', '/'])
                &&& !stands_at(s.bytes, start, seq!['/', '*'])
            }
        }),
{
    lemma_blank(s.bytes, s.pos, s.newline);
    let (pos, newline) = lexer::blank_end(s.bytes, s.pos, s.newline);
    if pos < s.bytes.len() {
        laws::law_token_advances(LexState { pos, newline: false, ..s }, newline);
    }
}

/// The base of a kind of digits.
pub open spec fn base_of(digits: Digits) -> nat {
    match digits {
        Digits::Decimal => 10,
        Digits::Hex => 16,
        Digits::Octal => 8,
        Digits::Binary => 2,
    }
}

/// A run of digits holds the digits of its base, and underscores.
pub proof fn law_digits(digits: Digits, b: u8)
    requires
        b < 0x80,
    ensures
        lexer::digit_of(digits, b) <==> b as char == '_' || number_literal::digit_value(b as char)
            < base_of(digits),
{
}

/// The letter behind a leading zero names the base that the literal is evaluated in.
pub proof fn law_radix(letter: u8)
    requires
        letter < 0x80,
    ensures
        match (lexer::radix_digits(Some(letter)), number_literal::prefix_base(
            seq!['0', letter as char],
        )) {
            (Some(digits), Some(base)) => base_of(digits) == base,
            (None, None) => true,
            _ => false,
        },
{
}

} // verus!
