//! The lexer: converts source text into a stream of tokens.

use vstd::prelude::*;
use vstd::string::*;
use vstd::utf8;
use crate::ast::span::Span;
use crate::lexer::cursor;
use crate::lexer::cursor::{
    is_id_continue, is_id_start, is_line_terminator, is_unicode_id_continue, is_unicode_id_start,
    Cursor,
};
use crate::lexer::token;
use crate::lexer::token::{lookup_keyword, Token, TokenKind};
use crate::util::interner;
use crate::util::interner::Interner;

verus! {

/// The number of bytes from a position on.
pub open spec fn left(bytes: Seq<u8>, pos: int) -> int {
    if pos < bytes.len() {
        bytes.len() - pos
    } else {
        0
    }
}

/// The first position from `pos` on that holds a line terminator, or the end.
pub open spec fn line_end(bytes: Seq<u8>, pos: int) -> int
    decreases bytes.len() - pos,
{
    if pos >= bytes.len() || bytes[pos] == 10 || bytes[pos] == 13 {
        pos
    } else {
        line_end(bytes, pos + 1)
    }
}

/// The position behind the end of a block comment whose text starts at `pos`, and whether
/// a line terminator stands before it. An unterminated comment ends with the text.
pub open spec fn block_end(bytes: Seq<u8>, pos: int) -> (int, bool)
    decreases bytes.len() - pos,
{
    if pos >= bytes.len() {
        (pos, false)
    } else if bytes[pos] == 42 && cursor::byte_at(bytes, pos + 1) == Some(47u8) {
        (pos + 2, false)
    } else {
        let (end, newline) = block_end(bytes, pos + 1);
        (end, newline || bytes[pos] == 10 || bytes[pos] == 13)
    }
}

/// Comments end at or behind their start, inside of the text.
pub proof fn lemma_comment_ends(bytes: Seq<u8>, pos: int)
    requires
        0 <= pos <= bytes.len(),
    ensures
        pos <= line_end(bytes, pos) <= bytes.len(),
        pos <= block_end(bytes, pos).0 <= bytes.len(),
    decreases bytes.len() - pos,
{
    if pos < bytes.len() {
        lemma_comment_ends(bytes, pos + 1);
    }
}

/// The position behind white space and comments, and whether a line terminator was among
/// them (or before).
pub open spec fn blank_end(bytes: Seq<u8>, pos: int, newline: bool) -> (int, bool)
    decreases bytes.len() - pos,
{
    let next = cursor::byte_at(bytes, pos + 1);
    if pos < 0 || pos >= bytes.len() {
        (pos, newline)
    } else if bytes[pos] == 32 || bytes[pos] == 9 {
        blank_end(bytes, pos + 1, newline)
    } else if bytes[pos] == 10 {
        blank_end(bytes, pos + 1, true)
    } else if bytes[pos] == 13 {
        if next == Some(10u8) {
            blank_end(bytes, pos + 2, true)
        } else {
            blank_end(bytes, pos + 1, true)
        }
    } else if bytes[pos] == 0xC2 && next == Some(0xA0u8) {
        blank_end(bytes, pos + 2, newline)
    } else if bytes[pos] == 47 && next == Some(47u8) {
        proof {
            lemma_comment_ends(bytes, pos + 2);
        }
        blank_end(bytes, line_end(bytes, pos + 2), newline)
    } else if bytes[pos] == 47 && next == Some(42u8) {
        proof {
            lemma_comment_ends(bytes, pos + 2);
        }
        let (end, inside) = block_end(bytes, pos + 2);
        blank_end(bytes, end, newline || inside)
    } else {
        (pos, newline)
    }
}

/// The end of an identifier of which the part before `pos` was read: ASCII and Unicode
/// continue characters follow.
pub open spec fn ident_end(bytes: Seq<u8>, pos: int) -> int
    decreases left(bytes, pos),
{
    if pos < 0 || pos >= bytes.len() {
        pos
    } else if cursor::id_continue(bytes[pos]) {
        ident_end(bytes, pos + 1)
    } else if bytes[pos] >= 0x80 {
        match cursor::char_at(bytes, pos) {
            Some(c) => if cursor::unicode_id_continue(c) {
                ident_end(bytes, pos + cursor::char_width(bytes[pos]))
            } else {
                pos
            },
            None => pos,
        }
    } else {
        pos
    }
}

/// The end of a run of Unicode continue characters.
pub open spec fn unicode_end(bytes: Seq<u8>, pos: int) -> int
    decreases left(bytes, pos),
{
    match cursor::char_at(bytes, pos) {
        Some(c) => if cursor::unicode_id_continue(c) {
            unicode_end(bytes, pos + cursor::char_width(bytes[pos]))
        } else {
            pos
        },
        None => pos,
    }
}

/// Which digits a run holds.
#[derive(Clone, Copy, PartialEq, Eq, Structural, Debug)]
pub enum Digits {
    Decimal,
    Hex,
    Octal,
    Binary,
}

/// Whether a byte belongs to a run of digits: a digit or an underscore.
pub open spec fn digit_of(digits: Digits, b: u8) -> bool {
    b == 95 || (match digits {
        Digits::Decimal => 48 <= b <= 57,
        Digits::Hex => 48 <= b <= 57 || 65 <= b <= 70 || 97 <= b <= 102,
        Digits::Octal => 48 <= b <= 55,
        Digits::Binary => b == 48 || b == 49,
    })
}

/// The end of a run of digits.
pub open spec fn digits_end(bytes: Seq<u8>, pos: int, digits: Digits) -> int
    decreases bytes.len() - pos,
{
    if 0 <= pos < bytes.len() && digit_of(digits, bytes[pos]) {
        digits_end(bytes, pos + 1, digits)
    } else {
        pos
    }
}

pub(crate) proof fn lemma_digits_end(bytes: Seq<u8>, pos: int, digits: Digits)
    requires
        0 <= pos <= bytes.len(),
    ensures
        pos <= digits_end(bytes, pos, digits) <= bytes.len(),
    decreases bytes.len() - pos,
{
    if pos < bytes.len() && digit_of(digits, bytes[pos]) {
        lemma_digits_end(bytes, pos + 1, digits);
    }
}

proof fn lemma_digits_run(bytes: Seq<u8>, pos: int, end: int, digits: Digits)
    requires
        0 <= pos <= end <= bytes.len(),
        forall|i: int| pos <= i < end ==> digit_of(digits, #[trigger] bytes[i]),
        end < bytes.len() ==> !digit_of(digits, bytes[end]),
    ensures
        digits_end(bytes, pos, digits) == end,
    decreases end - pos,
{
    if pos < end {
        lemma_digits_run(bytes, pos + 1, end, digits);
    }
}

/// The end of an exponent that may follow at `pos`.
pub open spec fn exponent_end(bytes: Seq<u8>, pos: int) -> int {
    if cursor::byte_at(bytes, pos) == Some(101u8) || cursor::byte_at(bytes, pos) == Some(69u8) {
        let sign = cursor::byte_at(bytes, pos + 1);
        if sign == Some(43u8) || sign == Some(45u8) {
            digits_end(bytes, pos + 2, Digits::Decimal)
        } else {
            digits_end(bytes, pos + 1, Digits::Decimal)
        }
    } else {
        pos
    }
}

/// The digits behind a radix prefix: the letter behind a leading zero names them.
pub open spec fn radix_digits(letter: Option<u8>) -> Option<Digits> {
    if letter == Some(120u8) || letter == Some(88u8) {
        Some(Digits::Hex)
    } else if letter == Some(111u8) || letter == Some(79u8) {
        Some(Digits::Octal)
    } else if letter == Some(98u8) || letter == Some(66u8) {
        Some(Digits::Binary)
    } else {
        None
    }
}

/// The end of the digits of a number that starts at `pos` with a digit, before a suffix.
pub open spec fn number_end(bytes: Seq<u8>, pos: int) -> int {
    let radix = if bytes[pos] == 48 {
        radix_digits(cursor::byte_at(bytes, pos + 1))
    } else {
        None
    };
    match radix {
        Some(digits) => digits_end(bytes, pos + 2, digits),
        None => {
            let whole = digits_end(bytes, pos + 1, Digits::Decimal);
            let fraction = if cursor::byte_at(bytes, whole) == Some(46u8) {
                digits_end(bytes, whole + 1, Digits::Decimal)
            } else {
                whole
            };
            exponent_end(bytes, fraction)
        },
    }
}

/// Where the text of a string literal ends and whether a closing quote ended it. A
/// backslash takes the next byte with it; a line terminator or the end of the source
/// leaves the literal unterminated.
pub open spec fn string_end(bytes: Seq<u8>, pos: int, quote: u8) -> (int, bool)
    decreases bytes.len() - pos,
{
    if pos < 0 || pos >= bytes.len() {
        (pos, false)
    } else if bytes[pos] == quote {
        (pos + 1, true)
    } else if bytes[pos] == 92 {
        if pos + 1 < bytes.len() {
            string_end(bytes, pos + 2, quote)
        } else {
            (pos + 1, false)
        }
    } else if bytes[pos] == 10 || bytes[pos] == 13 {
        (pos, false)
    } else {
        string_end(bytes, pos + 1, quote)
    }
}

/// How a piece of a template literal ends.
#[derive(Clone, Copy, PartialEq, Eq, Structural, Debug)]
pub enum TemplateEnd {
    /// A backquote closes the literal.
    Closed,
    /// An interpolated expression follows.
    Hole,
    /// The source ends inside of the literal.
    Unterminated,
}

/// Where a piece of a template literal ends, and how.
pub open spec fn template_end(bytes: Seq<u8>, pos: int) -> (int, TemplateEnd)
    decreases bytes.len() - pos,
{
    if pos < 0 || pos >= bytes.len() {
        (pos, TemplateEnd::Unterminated)
    } else if bytes[pos] == 96 {
        (pos + 1, TemplateEnd::Closed)
    } else if bytes[pos] == 36 && cursor::byte_at(bytes, pos + 1) == Some(123u8) {
        (pos + 2, TemplateEnd::Hole)
    } else if bytes[pos] == 92 {
        if pos + 1 < bytes.len() {
            template_end(bytes, pos + 2)
        } else {
            (pos + 1, TemplateEnd::Unterminated)
        }
    } else {
        template_end(bytes, pos + 1)
    }
}

/// The punctuator that four bytes start with, and its length.
pub open spec fn punctuator(b0: u8, b1: Option<u8>, b2: Option<u8>, b3: Option<u8>) -> (
    TokenKind,
    int,
) {
    let eq1 = b1 == Some(61u8);
    let eq2 = b2 == Some(61u8);
    if b0 == 40 {
        (TokenKind::LParen, 1)
    } else if b0 == 41 {
        (TokenKind::RParen, 1)
    } else if b0 == 123 {
        (TokenKind::LBrace, 1)
    } else if b0 == 125 {
        (TokenKind::RBrace, 1)
    } else if b0 == 91 {
        (TokenKind::LBracket, 1)
    } else if b0 == 93 {
        (TokenKind::RBracket, 1)
    } else if b0 == 59 {
        (TokenKind::Semicolon, 1)
    } else if b0 == 44 {
        (TokenKind::Comma, 1)
    } else if b0 == 126 {
        (TokenKind::Tilde, 1)
    } else if b0 == 35 {
        (TokenKind::Hash, 1)
    } else if b0 == 58 {
        (TokenKind::Colon, 1)
    } else if b0 == 46 {
        if b1 == Some(46u8) && b2 == Some(46u8) {
            (TokenKind::DotDotDot, 3)
        } else {
            (TokenKind::Dot, 1)
        }
    } else if b0 == 63 {
        if b1 == Some(63u8) {
            if eq2 {
                (TokenKind::QuestionQuestionAssign, 3)
            } else {
                (TokenKind::QuestionQuestion, 2)
            }
        } else if b1 == Some(46u8) {
            (TokenKind::QuestionDot, 2)
        } else {
            (TokenKind::Question, 1)
        }
    } else if b0 == 61 {
        if eq1 {
            if eq2 {
                (TokenKind::EqEqEq, 3)
            } else {
                (TokenKind::EqEq, 2)
            }
        } else if b1 == Some(62u8) {
            (TokenKind::Arrow, 2)
        } else {
            (TokenKind::Assign, 1)
        }
    } else if b0 == 33 {
        if eq1 {
            if eq2 {
                (TokenKind::NotEqEq, 3)
            } else {
                (TokenKind::NotEq, 2)
            }
        } else {
            (TokenKind::Bang, 1)
        }
    } else if b0 == 43 {
        if b1 == Some(43u8) {
            (TokenKind::PlusPlus, 2)
        } else if eq1 {
            (TokenKind::PlusAssign, 2)
        } else {
            (TokenKind::Plus, 1)
        }
    } else if b0 == 45 {
        if b1 == Some(45u8) {
            (TokenKind::MinusMinus, 2)
        } else if eq1 {
            (TokenKind::MinusAssign, 2)
        } else {
            (TokenKind::Minus, 1)
        }
    } else if b0 == 42 {
        if b1 == Some(42u8) {
            if eq2 {
                (TokenKind::StarStarAssign, 3)
            } else {
                (TokenKind::StarStar, 2)
            }
        } else if eq1 {
            (TokenKind::StarAssign, 2)
        } else {
            (TokenKind::Star, 1)
        }
    } else if b0 == 47 {
        if eq1 {
            (TokenKind::SlashAssign, 2)
        } else {
            (TokenKind::Slash, 1)
        }
    } else if b0 == 37 {
        if eq1 {
            (TokenKind::PercentAssign, 2)
        } else {
            (TokenKind::Percent, 1)
        }
    } else if b0 == 60 {
        if b1 == Some(60u8) {
            if eq2 {
                (TokenKind::LtLtAssign, 3)
            } else {
                (TokenKind::LtLt, 2)
            }
        } else if eq1 {
            (TokenKind::LtEq, 2)
        } else {
            (TokenKind::Lt, 1)
        }
    } else if b0 == 62 {
        if b1 == Some(62u8) {
            if b2 == Some(62u8) {
                if b3 == Some(61u8) {
                    (TokenKind::GtGtGtAssign, 4)
                } else {
                    (TokenKind::GtGtGt, 3)
                }
            } else if eq2 {
                (TokenKind::GtGtAssign, 3)
            } else {
                (TokenKind::GtGt, 2)
            }
        } else if eq1 {
            (TokenKind::GtEq, 2)
        } else {
            (TokenKind::Gt, 1)
        }
    } else if b0 == 38 {
        if b1 == Some(38u8) {
            if eq2 {
                (TokenKind::AmpAmpAssign, 3)
            } else {
                (TokenKind::AmpAmp, 2)
            }
        } else if eq1 {
            (TokenKind::AmpAssign, 2)
        } else {
            (TokenKind::Amp, 1)
        }
    } else if b0 == 124 {
        if b1 == Some(124u8) {
            if eq2 {
                (TokenKind::PipePipeAssign, 3)
            } else {
                (TokenKind::PipePipe, 2)
            }
        } else if eq1 {
            (TokenKind::PipeAssign, 2)
        } else {
            (TokenKind::Pipe, 1)
        }
    } else if b0 == 94 {
        if eq1 {
            (TokenKind::CaretAssign, 2)
        } else {
            (TokenKind::Caret, 1)
        }
    } else {
        (TokenKind::Error, 1)
    }
}

fn is_byte(byte: Option<u8>, expected: u8) -> (is: bool)
    ensures
        is == (byte == Some(expected)),
{
    match byte {
        Some(b) => b == expected,
        None => false,
    }
}

/// The punctuator that four bytes start with, and its length.
fn read_punctuator(b0: u8, b1: Option<u8>, b2: Option<u8>, b3: Option<u8>) -> (read: (
    TokenKind,
    usize,
))
    ensures
        (read.0, read.1 as int) == punctuator(b0, b1, b2, b3),
        1 <= read.1 <= 4,
        read.1 >= 2 ==> b1 is Some,
        read.1 >= 3 ==> b2 is Some,
        read.1 >= 4 ==> b3 is Some,
{
    let eq1 = is_byte(b1, 61);
    let eq2 = is_byte(b2, 61);
    if b0 == 40 {
        (TokenKind::LParen, 1)
    } else if b0 == 41 {
        (TokenKind::RParen, 1)
    } else if b0 == 123 {
        (TokenKind::LBrace, 1)
    } else if b0 == 125 {
        (TokenKind::RBrace, 1)
    } else if b0 == 91 {
        (TokenKind::LBracket, 1)
    } else if b0 == 93 {
        (TokenKind::RBracket, 1)
    } else if b0 == 59 {
        (TokenKind::Semicolon, 1)
    } else if b0 == 44 {
        (TokenKind::Comma, 1)
    } else if b0 == 126 {
        (TokenKind::Tilde, 1)
    } else if b0 == 35 {
        (TokenKind::Hash, 1)
    } else if b0 == 58 {
        (TokenKind::Colon, 1)
    } else if b0 == 46 {
        if is_byte(b1, 46) && is_byte(b2, 46) {
            (TokenKind::DotDotDot, 3)
        } else {
            (TokenKind::Dot, 1)
        }
    } else if b0 == 63 {
        if is_byte(b1, 63) {
            if eq2 {
                (TokenKind::QuestionQuestionAssign, 3)
            } else {
                (TokenKind::QuestionQuestion, 2)
            }
        } else if is_byte(b1, 46) {
            (TokenKind::QuestionDot, 2)
        } else {
            (TokenKind::Question, 1)
        }
    } else if b0 == 61 {
        if eq1 {
            if eq2 {
                (TokenKind::EqEqEq, 3)
            } else {
                (TokenKind::EqEq, 2)
            }
        } else if is_byte(b1, 62) {
            (TokenKind::Arrow, 2)
        } else {
            (TokenKind::Assign, 1)
        }
    } else if b0 == 33 {
        if eq1 {
            if eq2 {
                (TokenKind::NotEqEq, 3)
            } else {
                (TokenKind::NotEq, 2)
            }
        } else {
            (TokenKind::Bang, 1)
        }
    } else if b0 == 43 {
        if is_byte(b1, 43) {
            (TokenKind::PlusPlus, 2)
        } else if eq1 {
            (TokenKind::PlusAssign, 2)
        } else {
            (TokenKind::Plus, 1)
        }
    } else if b0 == 45 {
        if is_byte(b1, 45) {
            (TokenKind::MinusMinus, 2)
        } else if eq1 {
            (TokenKind::MinusAssign, 2)
        } else {
            (TokenKind::Minus, 1)
        }
    } else if b0 == 42 {
        if is_byte(b1, 42) {
            if eq2 {
                (TokenKind::StarStarAssign, 3)
            } else {
                (TokenKind::StarStar, 2)
            }
        } else if eq1 {
            (TokenKind::StarAssign, 2)
        } else {
            (TokenKind::Star, 1)
        }
    } else if b0 == 47 {
        if eq1 {
            (TokenKind::SlashAssign, 2)
        } else {
            (TokenKind::Slash, 1)
        }
    } else if b0 == 37 {
        if eq1 {
            (TokenKind::PercentAssign, 2)
        } else {
            (TokenKind::Percent, 1)
        }
    } else if b0 == 60 {
        if is_byte(b1, 60) {
            if eq2 {
                (TokenKind::LtLtAssign, 3)
            } else {
                (TokenKind::LtLt, 2)
            }
        } else if eq1 {
            (TokenKind::LtEq, 2)
        } else {
            (TokenKind::Lt, 1)
        }
    } else if b0 == 62 {
        if is_byte(b1, 62) {
            if is_byte(b2, 62) {
                if is_byte(b3, 61) {
                    (TokenKind::GtGtGtAssign, 4)
                } else {
                    (TokenKind::GtGtGt, 3)
                }
            } else if eq2 {
                (TokenKind::GtGtAssign, 3)
            } else {
                (TokenKind::GtGt, 2)
            }
        } else if eq1 {
            (TokenKind::GtEq, 2)
        } else {
            (TokenKind::Gt, 1)
        }
    } else if b0 == 38 {
        if is_byte(b1, 38) {
            if eq2 {
                (TokenKind::AmpAmpAssign, 3)
            } else {
                (TokenKind::AmpAmp, 2)
            }
        } else if eq1 {
            (TokenKind::AmpAssign, 2)
        } else {
            (TokenKind::Amp, 1)
        }
    } else if b0 == 124 {
        if is_byte(b1, 124) {
            if eq2 {
                (TokenKind::PipePipeAssign, 3)
            } else {
                (TokenKind::PipePipe, 2)
            }
        } else if eq1 {
            (TokenKind::PipeAssign, 2)
        } else {
            (TokenKind::Pipe, 1)
        }
    } else if b0 == 94 {
        if eq1 {
            (TokenKind::CaretAssign, 2)
        } else {
            (TokenKind::Caret, 1)
        }
    } else {
        (TokenKind::Error, 1)
    }
}

/// What the lexer has read and what it keeps track of.
#[verifier::ext_equal]
pub struct LexState {
    /// The bytes of the source.
    pub bytes: Seq<u8>,
    /// The position.
    pub pos: int,
    /// Whether a line terminator was seen since the last token.
    pub newline: bool,
    /// The number of interpolated expressions that were entered and not left.
    pub template_depth: u32,
    /// The brace depth at each interpolated expression that is open.
    pub template_braces: Seq<u32>,
    /// The brace depth.
    pub brace_depth: u32,
    /// The interned strings.
    pub table: Seq<Seq<char>>,
}

/// A token between two positions.
pub open spec fn token_at(kind: TokenKind, start: int, end: int, newline: bool) -> Token {
    Token {
        kind,
        span: Span { start: start as u32, end: end as u32 },
        preceded_by_newline: newline,
    }
}

impl LexState {
    /// The state at another position.
    pub open spec fn to(self, pos: int) -> LexState {
        LexState { pos, ..self }
    }

    /// Read an identifier or keyword that ends at `end`. Identifiers are interned.
    pub open spec fn word(self, end: int, newline: bool) -> (LexState, Token) {
        let text = cursor::text_between(self.bytes, self.pos, end);
        match token::keyword_of(text) {
            Some(kind) => (self.to(end), token_at(kind, self.pos, end, newline)),
            None => (
                LexState { table: interner::interned(self.table, text), ..self.to(end) },
                token_at(TokenKind::Identifier, self.pos, end, newline),
            ),
        }
    }

    /// Read the number whose digits end at `end`; an `n` behind them makes it a BigInt.
    pub open spec fn number(self, end: int, newline: bool) -> (LexState, Token) {
        if cursor::byte_at(self.bytes, end) == Some(110u8) {
            (self.to(end + 1), token_at(TokenKind::BigInt, self.pos, end + 1, newline))
        } else {
            (self.to(end), token_at(TokenKind::Number, self.pos, end, newline))
        }
    }

    /// Read a piece of a template literal: the text starts at `from`, the token at the
    /// position.
    pub open spec fn template(self, from: int, newline: bool, head: bool) -> (LexState, Token) {
        let (end, how) = template_end(self.bytes, from);
        match how {
            TemplateEnd::Closed => (
                LexState {
                    template_depth: if self.template_depth == 0 {
                        0
                    } else {
                        (self.template_depth - 1) as u32
                    },
                    ..self.to(end)
                },
                token_at(
                    if head {
                        TokenKind::TemplateLiteralFull
                    } else {
                        TokenKind::TemplateLiteralTail
                    },
                    self.pos,
                    end,
                    newline,
                ),
            ),
            TemplateEnd::Hole => (
                LexState {
                    template_depth: self.template_depth.wrapping_add(1),
                    template_braces: self.template_braces.push(self.brace_depth),
                    brace_depth: self.brace_depth.wrapping_add(1),
                    ..self.to(end)
                },
                token_at(
                    if head {
                        TokenKind::TemplateLiteralHead
                    } else {
                        TokenKind::TemplateLiteralMiddle
                    },
                    self.pos,
                    end,
                    newline,
                ),
            ),
            TemplateEnd::Unterminated => (
                self.to(end),
                token_at(TokenKind::Error, self.pos, end, newline),
            ),
        }
    }

    /// Whether the closing brace at the position ends an interpolated expression.
    pub open spec fn closes_hole(self) -> bool {
        &&& self.template_braces.len() > 0
        &&& cursor::byte_at(self.bytes, self.pos) == Some(125u8)
        &&& self.brace_depth == self.template_braces.last().wrapping_add(1)
    }

    /// Read a punctuator; braces are counted.
    pub open spec fn punct(self, newline: bool) -> (LexState, Token) {
        let at = |i: int| cursor::byte_at(self.bytes, self.pos + i);
        let (kind, len) = punctuator(self.bytes[self.pos], at(1), at(2), at(3));
        let moved = self.to(self.pos + len);
        let end = if kind == TokenKind::LBrace {
            LexState { brace_depth: self.brace_depth.wrapping_add(1), ..moved }
        } else if kind == TokenKind::RBrace && self.brace_depth > 0 {
            LexState { brace_depth: (self.brace_depth - 1) as u32, ..moved }
        } else {
            moved
        };
        (end, token_at(kind, self.pos, self.pos + len, newline))
    }

    /// Read the token at the position, which is not the end.
    pub open spec fn token(self, newline: bool) -> (LexState, Token) {
        let b = self.bytes[self.pos];
        if self.closes_hole() {
            let inner = LexState {
                template_braces: self.template_braces.drop_last(),
                brace_depth: self.brace_depth.wrapping_sub(1),
                ..self
            };
            inner.template(self.pos + 1, newline, false)
        } else if cursor::id_start(b) {
            self.word(ident_end(self.bytes, self.pos + 1), newline)
        } else if cursor::ascii_digit(b) {
            self.number(number_end(self.bytes, self.pos), newline)
        } else if b == 39 || b == 34 {
            let (end, closed) = string_end(self.bytes, self.pos + 1, b);
            (
                self.to(end),
                token_at(
                    if closed {
                        TokenKind::String
                    } else {
                        TokenKind::Error
                    },
                    self.pos,
                    end,
                    newline,
                ),
            )
        } else if b == 96 {
            self.template(self.pos + 1, newline, true)
        } else if b == 46 && self.dot_number() {
            let end = exponent_end(
                self.bytes,
                digits_end(self.bytes, self.pos + 1, Digits::Decimal),
            );
            (self.to(end), token_at(TokenKind::Number, self.pos, end, newline))
        } else if b >= 0x80 {
            match cursor::char_at(self.bytes, self.pos) {
                Some(c) => if cursor::unicode_id_start(c) {
                    self.word(
                        unicode_end(self.bytes, self.pos + cursor::char_width(b)),
                        newline,
                    )
                } else {
                    (
                        self.to(self.pos + 1),
                        token_at(TokenKind::Error, self.pos, self.pos + 1, newline),
                    )
                },
                None => (
                    self.to(self.pos + 1),
                    token_at(TokenKind::Error, self.pos, self.pos + 1, newline),
                ),
            }
        } else {
            self.punct(newline)
        }
    }

    /// Whether the dot at the position starts a number: a digit follows.
    pub open spec fn dot_number(self) -> bool {
        match cursor::byte_at(self.bytes, self.pos + 1) {
            Some(b) => cursor::ascii_digit(b),
            None => false,
        }
    }

    /// Skip white space and comments, then read the next token.
    pub open spec fn next(self) -> (LexState, Token) {
        let (pos, newline) = blank_end(self.bytes, self.pos, self.newline);
        let start = LexState { pos, newline: false, ..self };
        if pos >= self.bytes.len() {
            (start, token_at(TokenKind::Eof, pos, pos, newline))
        } else {
            start.token(newline)
        }
    }
}

pub(crate) proof fn lemma_ident_end(bytes: Seq<u8>, pos: int)
    requires
        utf8::valid_utf8(bytes),
        0 <= pos <= bytes.len(),
        utf8::is_char_boundary(bytes, pos),
    ensures
        pos <= ident_end(bytes, pos) <= bytes.len(),
        utf8::is_char_boundary(bytes, ident_end(bytes, pos)),
    decreases bytes.len() - pos,
{
    if pos < bytes.len() {
        cursor::lemma_char_width(bytes, pos);
        if cursor::id_continue(bytes[pos]) {
            lemma_ident_end(bytes, pos + 1);
        } else if bytes[pos] >= 0x80 {
            lemma_ident_end(bytes, pos + cursor::char_width(bytes[pos]));
        }
    }
}

pub(crate) proof fn lemma_unicode_end(bytes: Seq<u8>, pos: int)
    requires
        utf8::valid_utf8(bytes),
        0 <= pos <= bytes.len(),
        utf8::is_char_boundary(bytes, pos),
    ensures
        pos <= unicode_end(bytes, pos) <= bytes.len(),
        utf8::is_char_boundary(bytes, unicode_end(bytes, pos)),
    decreases bytes.len() - pos,
{
    if pos < bytes.len() {
        cursor::lemma_char_width(bytes, pos);
        lemma_unicode_end(bytes, pos + cursor::char_width(bytes[pos]));
    }
}

/// The lexer: converts source text into a stream of tokens.
pub struct Lexer<'a> {
    cursor: Cursor<'a>,
    interner: Interner,
    /// Whether we saw a line terminator since the last token.
    saw_newline: bool,
    /// Template literal nesting depth (for tracking `${` ... `}` inside templates).
    template_depth: u32,
    /// Brace depth stack for template literals. Each entry is the brace depth
    /// when we entered a `${` expression. When the matching `}` is found,
    /// we resume scanning the template.
    template_brace_stack: Vec<u32>,
    /// Current brace nesting depth.
    brace_depth: u32,
}

impl<'a> Lexer<'a> {
    /// The position lies in the source.
    pub closed spec fn wf(&self) -> bool {
        self.cursor.wf()
    }

    /// The source text.
    pub closed spec fn text(&self) -> &'a str {
        self.cursor.text()
    }

    /// What was read and is kept track of.
    pub closed spec fn state(&self) -> LexState {
        LexState {
            bytes: self.cursor.bytes(),
            pos: self.cursor.at() as int,
            newline: self.saw_newline,
            template_depth: self.template_depth,
            template_braces: self.template_brace_stack@,
            brace_depth: self.brace_depth,
            table: self.interner@,
        }
    }

    /// A lexer at the start of a source text. It takes over the interned strings.
    pub fn new(source: &'a str, interner: Interner) -> (lexer: Self)
        ensures
            lexer.wf(),
            lexer.text() == source,
            lexer.state() == start_state(source.spec_bytes(), interner@),
    {
        let lexer = Lexer {
            cursor: Cursor::new(source),
            interner,
            saw_newline: false,
            template_depth: 0,
            template_brace_stack: Vec::new(),
            brace_depth: 0,
        };
        assert(lexer.template_brace_stack@ =~= Seq::empty());
        lexer
    }

    /// Hand back the interned strings.
    pub fn finish(self) -> (interner: Interner)
        ensures
            interner@ == self.state().table,
    {
        self.interner
    }

    /// Tokenize the rest of the source, returning all tokens.
    pub fn tokenize(&mut self) -> (tokens: Vec<Token>)
        requires
            old(self).wf(),
        ensures
            final(self).wf(),
            final(self).text() == old(self).text(),
            (final(self).state(), tokens@) == lexed(old(self).state()),
    {
        let mut tokens: Vec<Token> = Vec::new();
        assert(Seq::empty() + lexed(self.state()).1 =~= lexed(self.state()).1);
        loop
            invariant_except_break
                self.wf(),
                self.text() == old(self).text(),
                lexed(old(self).state()) == (lexed(self.state()).0, tokens@ + lexed(
                    self.state(),
                ).1),
            ensures
                self.wf(),
                self.text() == old(self).text(),
                (self.state(), tokens@) == lexed(old(self).state()),
            decreases self.state().bytes.len() - self.state().pos,
        {
            let ghost before = self.state();
            let ghost read = tokens@;
            let token = self.next_token();
            tokens.push(token);
            if token.kind == TokenKind::Eof {
                assert(tokens@ =~= read + seq![token]);
                break ;
            }
            proof {
                assert(lexed(before).1 =~= seq![token] + lexed(self.state()).1);
                assert(tokens@ + lexed(self.state()).1 =~= read + lexed(before).1);
            }
        }
        tokens
    }

    /// Scan the next token.
    pub fn next_token(&mut self) -> (token: Token)
        requires
            old(self).wf(),
        ensures
            final(self).wf(),
            final(self).text() == old(self).text(),
            (final(self).state(), token) == old(self).state().next(),
            final(self).state().bytes == old(self).state().bytes,
            old(self).state().pos <= final(self).state().pos,
            token.kind != TokenKind::Eof ==> old(self).state().pos < final(self).state().pos,
            final(self).state().pos <= final(self).state().bytes.len(),
    {
        self.skip_whitespace_and_comments();
        let newline: bool = self.saw_newline;
        self.saw_newline = false;
        if self.cursor.is_eof() {
            let pos: usize = self.cursor.pos();
            return Token::new(TokenKind::Eof, Span::new(pos as u32, pos as u32), newline);
        }
        self.scan_token(newline)
    }

    fn span_from(&self, start: usize) -> (span: Span)
        requires
            self.wf(),
        ensures
            span == (Span { start: start as u32, end: self.state().pos as u32 }),
    {
        Span::new(start as u32, self.cursor.pos() as u32)
    }

    /// Whether the byte under the cursor closes the innermost interpolated expression.
    fn at_hole_end(&self) -> (closes: bool)
        requires
            self.wf(),
        ensures
            closes == self.state().closes_hole(),
    {
        let depth: usize = self.template_brace_stack.len();
        depth > 0 && is_byte(self.cursor.peek(), 125) && self.brace_depth
            == self.template_brace_stack[depth - 1].wrapping_add(1)
    }

    fn scan_token(&mut self, newline: bool) -> (token: Token)
        requires
            old(self).wf(),
            old(self).state().pos < old(self).state().bytes.len(),
        ensures
            final(self).wf(),
            final(self).text() == old(self).text(),
            (final(self).state(), token) == old(self).state().token(newline),
            final(self).state().bytes == old(self).state().bytes,
            old(self).state().pos < final(self).state().pos,
            final(self).state().pos <= final(self).state().bytes.len(),
            token.kind != TokenKind::Eof,
    {
        let start: usize = self.cursor.pos();
        if self.at_hole_end() {
            self.template_brace_stack.pop();
            self.brace_depth = self.brace_depth.wrapping_sub(1);
            let ghost inner = self.state();
            assert(inner.template_braces =~= old(self).state().template_braces.drop_last());
            self.cursor.advance();
            return self.scan_template_body(start, newline, false, Ghost(inner));
        }
        let byte: u8 = match self.cursor.peek() {
            Some(b) => b,
            None => 0,
        };
        if is_id_start(byte) {
            self.scan_identifier(start, newline)
        } else if 48 <= byte && byte <= 57 {
            self.scan_number(start, newline)
        } else if byte == 39 || byte == 34 {
            self.scan_string(start, newline)
        } else if byte == 96 {
            let ghost outer = self.state();
            self.cursor.advance();
            self.scan_template_body(start, newline, true, Ghost(outer))
        } else if byte == 46 && self.dot_starts_number() {
            self.scan_number_after_dot(start, newline)
        } else if byte >= 0x80 {
            match self.cursor.peek_char() {
                Some(c) => {
                    if is_unicode_id_start(c) {
                        self.scan_unicode_identifier(start, newline)
                    } else {
                        self.cursor.advance();
                        Token::new(TokenKind::Error, self.span_from(start), newline)
                    }
                },
                None => {
                    self.cursor.advance();
                    Token::new(TokenKind::Error, self.span_from(start), newline)
                },
            }
        } else {
            self.scan_punctuator(byte, start, newline)
        }
    }

    fn dot_starts_number(&self) -> (starts: bool)
        requires
            self.wf(),
        ensures
            starts == self.state().dot_number(),
    {
        match self.cursor.peek_at(1) {
            Some(b) => 48 <= b && b <= 57,
            None => false,
        }
    }

    fn scan_punctuator(&mut self, byte: u8, start: usize, newline: bool) -> (token: Token)
        requires
            old(self).wf(),
            old(self).state().pos == start < old(self).state().bytes.len(),
            byte == old(self).state().bytes[start as int],
            byte < 0x80,
        ensures
            final(self).wf(),
            final(self).text() == old(self).text(),
            (final(self).state(), token) == old(self).state().punct(newline),
            final(self).state().bytes == old(self).state().bytes,
            old(self).state().pos < final(self).state().pos,
            final(self).state().pos <= final(self).state().bytes.len(),
            token.kind != TokenKind::Eof,
    {
        let (kind, len) = read_punctuator(
            byte,
            self.cursor.peek_at(1),
            self.cursor.peek_at(2),
            self.cursor.peek_at(3),
        );
        let mut done: usize = 0;
        while done < len
            invariant
                done <= len,
                self.wf(),
                self.text() == old(self).text(),
                self.state() == old(self).state().to(start + done),
                start + len <= old(self).state().bytes.len(),
            decreases len - done,
        {
            self.cursor.advance();
            done = done + 1;
        }
        if kind == TokenKind::LBrace {
            self.brace_depth = self.brace_depth.wrapping_add(1);
        } else if kind == TokenKind::RBrace && self.brace_depth > 0 {
            self.brace_depth = self.brace_depth - 1;
        }
        Token::new(kind, self.span_from(start), newline)
    }

    fn skip_whitespace_and_comments(&mut self)
        requires
            old(self).wf(),
        ensures
            final(self).wf(),
            final(self).text() == old(self).text(),
            ({
                let s = old(self).state();
                let (pos, newline) = blank_end(s.bytes, s.pos, s.newline);
                final(self).state() == (LexState { pos, newline, ..s })
            }),
            old(self).state().pos <= final(self).state().pos <= old(self).state().bytes.len(),
    {
        proof {
            self.cursor.lemma_inside();
        }
        loop
            invariant_except_break
                self.wf(),
                self.text() == old(self).text(),
                old(self).state().pos <= self.state().pos <= old(self).state().bytes.len(),
                self.state() == (LexState {
                    pos: self.state().pos,
                    newline: self.state().newline,
                    ..old(self).state()
                }),
                blank_end(self.state().bytes, self.state().pos, self.state().newline) == blank_end(
                    old(self).state().bytes,
                    old(self).state().pos,
                    old(self).state().newline,
                ),
            ensures
                self.wf(),
                self.text() == old(self).text(),
                old(self).state().pos <= self.state().pos <= old(self).state().bytes.len(),
                ({
                    let s = old(self).state();
                    let (pos, newline) = blank_end(s.bytes, s.pos, s.newline);
                    self.state() == (LexState { pos, newline, ..s })
                }),
            decreases self.state().bytes.len() - self.state().pos,
        {
            let next = self.cursor.peek_at(1);
            match self.cursor.peek() {
                Some(b) => {
                    if b == 32 || b == 9 {
                        self.cursor.advance();
                    } else if b == 10 {
                        self.saw_newline = true;
                        self.cursor.advance();
                    } else if b == 13 {
                        self.saw_newline = true;
                        self.cursor.advance();
                        self.cursor.eat(10);
                    } else if b == 0xC2 && is_byte(next, 0xA0) {
                        self.cursor.advance();
                        self.cursor.advance();
                    } else if b == 47 && is_byte(next, 47) {
                        self.skip_line_comment();
                    } else if b == 47 && is_byte(next, 42) {
                        self.skip_block_comment();
                    } else {
                        break ;
                    }
                },
                None => {
                    break ;
                },
            }
        }
    }

    fn skip_line_comment(&mut self)
        requires
            old(self).wf(),
            old(self).state().pos + 2 <= old(self).state().bytes.len(),
        ensures
            final(self).wf(),
            final(self).text() == old(self).text(),
            final(self).state() == old(self).state().to(
                line_end(old(self).state().bytes, old(self).state().pos + 2),
            ),
            old(self).state().pos + 2 <= final(self).state().pos
                <= old(self).state().bytes.len(),
    {
        self.cursor.advance();
        self.cursor.advance();
        loop
            invariant_except_break
                self.wf(),
                self.text() == old(self).text(),
                old(self).state().pos + 2 <= self.state().pos <= old(self).state().bytes.len(),
                self.state() == old(self).state().to(self.state().pos),
                line_end(self.state().bytes, self.state().pos) == line_end(
                    old(self).state().bytes,
                    old(self).state().pos + 2,
                ),
            ensures
                self.wf(),
                self.text() == old(self).text(),
                old(self).state().pos + 2 <= self.state().pos <= old(self).state().bytes.len(),
                self.state() == old(self).state().to(
                    line_end(old(self).state().bytes, old(self).state().pos + 2),
                ),
            decreases self.state().bytes.len() - self.state().pos,
        {
            match self.cursor.peek() {
                Some(b) => {
                    if is_line_terminator(b) {
                        break ;
                    }
                    self.cursor.advance();
                },
                None => {
                    break ;
                },
            }
        }
    }

    fn skip_block_comment(&mut self)
        requires
            old(self).wf(),
            old(self).state().pos + 2 <= old(self).state().bytes.len(),
        ensures
            final(self).wf(),
            final(self).text() == old(self).text(),
            ({
                let s = old(self).state();
                let (pos, inside) = block_end(s.bytes, s.pos + 2);
                final(self).state() == (LexState { pos, newline: s.newline || inside, ..s })
            }),
            old(self).state().pos + 2 <= final(self).state().pos
                <= old(self).state().bytes.len(),
    {
        self.cursor.advance();
        self.cursor.advance();
        loop
            invariant_except_break
                self.wf(),
                self.text() == old(self).text(),
                old(self).state().pos + 2 <= self.state().pos <= old(self).state().bytes.len(),
                self.state() == (LexState {
                    pos: self.state().pos,
                    newline: self.state().newline,
                    ..old(self).state()
                }),
                ({
                    let (pos, inside) = block_end(self.state().bytes, self.state().pos);
                    let s = old(self).state();
                    let (whole, any) = block_end(s.bytes, s.pos + 2);
                    pos == whole && (self.state().newline || inside) == (s.newline || any)
                }),
            ensures
                self.wf(),
                self.text() == old(self).text(),
                old(self).state().pos + 2 <= self.state().pos <= old(self).state().bytes.len(),
                ({
                    let s = old(self).state();
                    let (pos, inside) = block_end(s.bytes, s.pos + 2);
                    self.state() == (LexState { pos, newline: s.newline || inside, ..s })
                }),
            decreases self.state().bytes.len() - self.state().pos,
        {
            let next = self.cursor.peek_at(1);
            match self.cursor.peek() {
                Some(b) => {
                    if b == 42 && is_byte(next, 47) {
                        self.cursor.advance();
                        self.cursor.advance();
                        break ;
                    }
                    if is_line_terminator(b) {
                        self.saw_newline = true;
                    }
                    self.cursor.advance();
                },
                None => {
                    break ;
                },
            }
        }
    }

    /// The word between `start` and the cursor: a keyword, or an identifier that is
    /// interned.
    fn finish_word(&mut self, start: usize, newline: bool, Ghost(begin): Ghost<LexState>) -> (token:
        Token)
        requires
            old(self).wf(),
            start < old(self).state().pos,
            begin == old(self).state().to(start as int),
            utf8::is_char_boundary(old(self).state().bytes, start as int),
            utf8::is_char_boundary(old(self).state().bytes, old(self).state().pos),
        ensures
            final(self).wf(),
            final(self).text() == old(self).text(),
            (final(self).state(), token) == begin.word(old(self).state().pos, newline),
            token.kind != TokenKind::Eof,
    {
        let text = self.cursor.slice_from(start);
        let span = self.span_from(start);
        match lookup_keyword(text) {
            Some(kind) => {
                assert(self.state() =~= begin.to(self.state().pos));
                Token::new(kind, span, newline)
            },
            None => {
                self.interner.intern(text);
                Token::new(TokenKind::Identifier, span, newline)
            },
        }
    }

    fn scan_identifier(&mut self, start: usize, newline: bool) -> (token: Token)
        requires
            old(self).wf(),
            old(self).state().pos == start < old(self).state().bytes.len(),
            cursor::id_start(old(self).state().bytes[start as int]),
        ensures
            final(self).wf(),
            final(self).text() == old(self).text(),
            (final(self).state(), token) == old(self).state().word(
                ident_end(old(self).state().bytes, start + 1),
                newline,
            ),
            final(self).state().bytes == old(self).state().bytes,
            old(self).state().pos < final(self).state().pos
                <= final(self).state().bytes.len(),
            token.kind != TokenKind::Eof,
    {
        let ghost begin = self.state();
        let ghost bytes = self.state().bytes;
        proof {
            cursor::lemma_source_text(self.cursor.text());
            utf8::is_char_boundary_iff_not_is_continuation_byte(bytes, start as int);
            cursor::lemma_char_width(bytes, start as int);
            lemma_ident_end(bytes, start + 1);
        }
        self.cursor.advance();
        loop
            invariant_except_break
                self.wf(),
                self.text() == old(self).text(),
                bytes == self.state().bytes,
                start < self.state().pos <= bytes.len(),
                self.state() == begin.to(self.state().pos),
                ident_end(bytes, self.state().pos) == ident_end(bytes, start + 1),
            ensures
                self.wf(),
                self.text() == old(self).text(),
                self.state() == begin.to(ident_end(bytes, start + 1)),
            decreases bytes.len() - self.state().pos,
        {
            match self.cursor.peek() {
                Some(b) => {
                    if is_id_continue(b) {
                        self.cursor.advance();
                    } else if b >= 0x80 {
                        match self.cursor.peek_char() {
                            Some(c) => {
                                if is_unicode_id_continue(c) {
                                    proof {
                                        cursor::lemma_source_text(self.cursor.text());
                                        cursor::lemma_char_width(bytes, self.state().pos);
                                    }
                                    self.cursor.advance_char();
                                } else {
                                    break ;
                                }
                            },
                            None => {
                                break ;
                            },
                        }
                    } else {
                        break ;
                    }
                },
                None => {
                    break ;
                },
            }
        }
        self.finish_word(start, newline, Ghost(begin))
    }

    fn scan_unicode_identifier(&mut self, start: usize, newline: bool) -> (token: Token)
        requires
            old(self).wf(),
            old(self).state().pos == start < old(self).state().bytes.len(),
            cursor::char_at(old(self).state().bytes, start as int) is Some,
        ensures
            final(self).wf(),
            final(self).text() == old(self).text(),
            ({
                let s = old(self).state();
                let from = start + cursor::char_width(s.bytes[start as int]);
                (final(self).state(), token) == s.word(unicode_end(s.bytes, from), newline)
            }),
            final(self).state().bytes == old(self).state().bytes,
            old(self).state().pos < final(self).state().pos
                <= final(self).state().bytes.len(),
            token.kind != TokenKind::Eof,
    {
        let ghost begin = self.state();
        let ghost bytes = self.state().bytes;
        let ghost from = start + cursor::char_width(bytes[start as int]);
        proof {
            cursor::lemma_source_text(self.cursor.text());
            cursor::lemma_char_width(bytes, start as int);
            lemma_unicode_end(bytes, from);
        }
        self.cursor.advance_char();
        loop
            invariant_except_break
                self.wf(),
                self.text() == old(self).text(),
                bytes == self.state().bytes,
                start < self.state().pos <= bytes.len(),
                self.state() == begin.to(self.state().pos),
                unicode_end(bytes, self.state().pos) == unicode_end(bytes, from),
            ensures
                self.wf(),
                self.text() == old(self).text(),
                self.state() == begin.to(unicode_end(bytes, from)),
            decreases bytes.len() - self.state().pos,
        {
            match self.cursor.peek_char() {
                Some(c) => {
                    if is_unicode_id_continue(c) {
                        proof {
                            cursor::lemma_source_text(self.cursor.text());
                            cursor::lemma_char_width(bytes, self.state().pos);
                        }
                        self.cursor.advance_char();
                    } else {
                        break ;
                    }
                },
                None => {
                    break ;
                },
            }
        }
        self.finish_word(start, newline, Ghost(begin))
    }

    fn skip_digits(&mut self, digits: Digits)
        requires
            old(self).wf(),
        ensures
            final(self).wf(),
            final(self).text() == old(self).text(),
            final(self).state() == old(self).state().to(
                digits_end(old(self).state().bytes, old(self).state().pos, digits),
            ),
            old(self).state().pos <= final(self).state().pos <= old(self).state().bytes.len(),
    {
        let predicate = |b: u8| -> (result: bool)
            ensures result == digit_of(digits, b)
        {
            is_digit_of(digits, b)
        };
        self.cursor.skip_while(predicate);
        proof {
            let s = old(self).state();
            lemma_digits_run(s.bytes, s.pos, self.state().pos, digits);
        }
    }

    fn skip_exponent(&mut self)
        requires
            old(self).wf(),
        ensures
            final(self).wf(),
            final(self).text() == old(self).text(),
            final(self).state() == old(self).state().to(
                exponent_end(old(self).state().bytes, old(self).state().pos),
            ),
            old(self).state().pos <= final(self).state().pos <= old(self).state().bytes.len(),
    {
        proof {
            self.cursor.lemma_inside();
        }
        let letter = self.cursor.peek();
        if is_byte(letter, 101) || is_byte(letter, 69) {
            self.cursor.advance();
            let sign = self.cursor.peek();
            if is_byte(sign, 43) || is_byte(sign, 45) {
                self.cursor.advance();
            }
            self.skip_digits(Digits::Decimal);
        }
    }

    fn scan_number(&mut self, start: usize, newline: bool) -> (token: Token)
        requires
            old(self).wf(),
            old(self).state().pos == start < old(self).state().bytes.len(),
        ensures
            final(self).wf(),
            final(self).text() == old(self).text(),
            (final(self).state(), token) == old(self).state().number(
                number_end(old(self).state().bytes, start as int),
                newline,
            ),
            final(self).state().bytes == old(self).state().bytes,
            old(self).state().pos < final(self).state().pos
                <= final(self).state().bytes.len(),
            token.kind != TokenKind::Eof,
    {
        let first = self.cursor.advance();
        let radix: Option<Digits> = if is_byte(first, 48) {
            radix_of(self.cursor.peek())
        } else {
            None
        };
        match radix {
            Some(digits) => {
                self.cursor.advance();
                self.skip_digits(digits);
            },
            None => {
                self.skip_digits(Digits::Decimal);
                if is_byte(self.cursor.peek(), 46) {
                    self.cursor.advance();
                    self.skip_digits(Digits::Decimal);
                }
                self.skip_exponent();
            },
        }
        let kind = if self.cursor.eat(110) {
            TokenKind::BigInt
        } else {
            TokenKind::Number
        };
        Token::new(kind, self.span_from(start), newline)
    }

    fn scan_number_after_dot(&mut self, start: usize, newline: bool) -> (token: Token)
        requires
            old(self).wf(),
            old(self).state().pos == start < old(self).state().bytes.len(),
        ensures
            final(self).wf(),
            final(self).text() == old(self).text(),
            ({
                let s = old(self).state();
                let end = exponent_end(
                    s.bytes,
                    digits_end(s.bytes, start + 1, Digits::Decimal),
                );
                (final(self).state(), token) == (
                    s.to(end),
                    token_at(TokenKind::Number, start as int, end, newline),
                )
            }),
            old(self).state().pos < final(self).state().pos
                <= final(self).state().bytes.len(),
    {
        self.cursor.advance();
        self.skip_digits(Digits::Decimal);
        self.skip_exponent();
        Token::new(TokenKind::Number, self.span_from(start), newline)
    }

    fn scan_string(&mut self, start: usize, newline: bool) -> (token: Token)
        requires
            old(self).wf(),
            old(self).state().pos == start < old(self).state().bytes.len(),
        ensures
            final(self).wf(),
            final(self).text() == old(self).text(),
            ({
                let s = old(self).state();
                let (end, closed) = string_end(s.bytes, start + 1, s.bytes[start as int]);
                (final(self).state(), token) == (
                    s.to(end),
                    token_at(
                        if closed {
                            TokenKind::String
                        } else {
                            TokenKind::Error
                        },
                        start as int,
                        end,
                        newline,
                    ),
                )
            }),
            final(self).state().bytes == old(self).state().bytes,
            old(self).state().pos < final(self).state().pos
                <= final(self).state().bytes.len(),
    {
        let ghost bytes = self.state().bytes;
        let ghost quote_byte = bytes[start as int];
        let quote: u8 = match self.cursor.advance() {
            Some(b) => b,
            None => 0,
        };
        let mut closed: bool = false;
        loop
            invariant_except_break
                self.wf(),
                self.text() == old(self).text(),
                bytes == self.state().bytes,
                quote == quote_byte,
                !closed,
                start < self.state().pos <= bytes.len(),
                self.state() == old(self).state().to(self.state().pos),
                string_end(bytes, self.state().pos, quote) == string_end(bytes, start + 1, quote),
            ensures
                self.wf(),
                self.text() == old(self).text(),
                start < self.state().pos <= bytes.len(),
                self.state() == old(self).state().to(self.state().pos),
                (self.state().pos, closed) == string_end(bytes, start + 1, quote_byte),
            decreases bytes.len() - self.state().pos,
        {
            match self.cursor.peek() {
                Some(b) => {
                    if b == quote {
                        self.cursor.advance();
                        closed = true;
                        break ;
                    } else if b == 92 {
                        self.cursor.advance();
                        self.cursor.advance();
                    } else if is_line_terminator(b) {
                        break ;
                    } else {
                        self.cursor.advance();
                    }
                },
                None => {
                    break ;
                },
            }
        }
        let kind = if closed {
            TokenKind::String
        } else {
            TokenKind::Error
        };
        Token::new(kind, self.span_from(start), newline)
    }

    fn scan_template_body(
        &mut self,
        start: usize,
        newline: bool,
        is_head: bool,
        Ghost(begin): Ghost<LexState>,
    ) -> (token: Token)
        requires
            old(self).wf(),
            old(self).state() == begin.to(start + 1),
            begin.pos == start,
            start < old(self).state().bytes.len(),
        ensures
            final(self).wf(),
            final(self).text() == old(self).text(),
            (final(self).state(), token) == begin.template(start + 1, newline, is_head),
            final(self).state().bytes == old(self).state().bytes,
            start < final(self).state().pos <= final(self).state().bytes.len(),
            token.kind != TokenKind::Eof,
    {
        let ghost bytes = self.state().bytes;
        let mut how: TemplateEnd = TemplateEnd::Unterminated;
        loop
            invariant_except_break
                self.wf(),
                self.text() == old(self).text(),
                bytes == self.state().bytes,
                how == TemplateEnd::Unterminated,
                start < self.state().pos <= bytes.len(),
                self.state() == begin.to(self.state().pos),
                template_end(bytes, self.state().pos) == template_end(bytes, start + 1),
            ensures
                self.wf(),
                self.text() == old(self).text(),
                start < self.state().pos <= bytes.len(),
                self.state() == begin.to(self.state().pos),
                (self.state().pos, how) == template_end(bytes, start + 1),
            decreases bytes.len() - self.state().pos,
        {
            match self.cursor.peek() {
                Some(b) => {
                    if b == 96 {
                        self.cursor.advance();
                        how = TemplateEnd::Closed;
                        break ;
                    } else if b == 36 && is_byte(self.cursor.peek_at(1), 123) {
                        self.cursor.advance();
                        self.cursor.advance();
                        how = TemplateEnd::Hole;
                        break ;
                    } else if b == 92 {
                        self.cursor.advance();
                        self.cursor.advance();
                    } else {
                        self.cursor.advance();
                    }
                },
                None => {
                    break ;
                },
            }
        }
        let kind = match how {
            TemplateEnd::Closed => {
                if self.template_depth > 0 {
                    self.template_depth = self.template_depth - 1;
                }
                if is_head {
                    TokenKind::TemplateLiteralFull
                } else {
                    TokenKind::TemplateLiteralTail
                }
            },
            TemplateEnd::Hole => {
                self.template_depth = self.template_depth.wrapping_add(1);
                self.template_brace_stack.push(self.brace_depth);
                self.brace_depth = self.brace_depth.wrapping_add(1);
                if is_head {
                    TokenKind::TemplateLiteralHead
                } else {
                    TokenKind::TemplateLiteralMiddle
                }
            },
            TemplateEnd::Unterminated => TokenKind::Error,
        };
        Token::new(kind, self.span_from(start), newline)
    }
}

fn is_digit_of(digits: Digits, b: u8) -> (result: bool)
    ensures
        result == digit_of(digits, b),
{
    b == 95 || match digits {
        Digits::Decimal => 48 <= b && b <= 57,
        Digits::Hex => (48 <= b && b <= 57) || (65 <= b && b <= 70) || (97 <= b && b <= 102),
        Digits::Octal => 48 <= b && b <= 55,
        Digits::Binary => b == 48 || b == 49,
    }
}

fn radix_of(letter: Option<u8>) -> (radix: Option<Digits>)
    ensures
        radix == radix_digits(letter),
{
    if is_byte(letter, 120) || is_byte(letter, 88) {
        Some(Digits::Hex)
    } else if is_byte(letter, 111) || is_byte(letter, 79) {
        Some(Digits::Octal)
    } else if is_byte(letter, 98) || is_byte(letter, 66) {
        Some(Digits::Binary)
    } else {
        None
    }
}

/// The state before anything is read.
pub open spec fn start_state(bytes: Seq<u8>, table: Seq<Seq<char>>) -> LexState {
    LexState {
        bytes,
        pos: 0,
        newline: false,
        template_depth: 0,
        template_braces: Seq::empty(),
        brace_depth: 0,
        table,
    }
}

/// The tokens from a state on, up to and with the first end-of-file token, and the state
/// behind them.
pub open spec fn lexed(s: LexState) -> (LexState, Seq<Token>)
    decreases left(s.bytes, s.pos),
{
    let (next, token) = s.next();
    if token.kind == TokenKind::Eof || next.pos <= s.pos || next.bytes != s.bytes || s.pos
        >= s.bytes.len() {
        (next, seq![token])
    } else {
        let (end, rest) = lexed(next);
        (end, seq![token] + rest)
    }
}

} // verus!
