//! What holds of every token and of every stream of tokens.

use vstd::prelude::*;
use vstd::utf8;
use crate::lexer::cursor;
use crate::lexer::lexer;
use crate::lexer::lexer::{Digits, LexState};
use crate::lexer::token::{Token, TokenKind};
use crate::util::interner;

verus! {

/// A state that reading can be in: its bytes are a text, its position lies inside of it.
pub open spec fn valid(s: LexState) -> bool {
    &&& utf8::valid_utf8(s.bytes)
    &&& 0 <= s.pos <= s.bytes.len()
}

/// A token lies between two positions.
pub open spec fn lies(token: Token, from: int, to: int) -> bool {
    from <= token.span.start <= token.span.end <= to
}

proof fn lemma_blank_end(bytes: Seq<u8>, pos: int, newline: bool)
    requires
        0 <= pos <= bytes.len(),
    ensures
        pos <= lexer::blank_end(bytes, pos, newline).0 <= bytes.len(),
    decreases bytes.len() - pos,
{
    if pos < bytes.len() {
        let next = cursor::byte_at(bytes, pos + 1);
        lemma_blank_end(bytes, pos + 1, newline);
        lemma_blank_end(bytes, pos + 1, true);
        if next is Some {
            lemma_blank_end(bytes, pos + 2, newline);
            lemma_blank_end(bytes, pos + 2, true);
            lexer::lemma_comment_ends(bytes, pos + 2);
            let (end, inside) = lexer::block_end(bytes, pos + 2);
            lemma_blank_end(bytes, lexer::line_end(bytes, pos + 2), newline);
            lemma_blank_end(bytes, end, newline || inside);
        }
    }
}

proof fn lemma_string_end(bytes: Seq<u8>, pos: int, quote: u8)
    requires
        0 <= pos <= bytes.len(),
    ensures
        pos <= lexer::string_end(bytes, pos, quote).0 <= bytes.len(),
    decreases bytes.len() - pos,
{
    if pos < bytes.len() {
        lemma_string_end(bytes, pos + 1, quote);
        if pos + 1 < bytes.len() {
            lemma_string_end(bytes, pos + 2, quote);
        }
    }
}

proof fn lemma_template_end(bytes: Seq<u8>, pos: int)
    requires
        0 <= pos <= bytes.len(),
    ensures
        pos <= lexer::template_end(bytes, pos).0 <= bytes.len(),
    decreases bytes.len() - pos,
{
    if pos < bytes.len() {
        lemma_template_end(bytes, pos + 1);
        if pos + 1 < bytes.len() {
            lemma_template_end(bytes, pos + 2);
        }
    }
}

proof fn lemma_exponent_end(bytes: Seq<u8>, pos: int)
    requires
        0 <= pos <= bytes.len(),
    ensures
        pos <= lexer::exponent_end(bytes, pos) <= bytes.len(),
{
    if pos + 1 <= bytes.len() {
        lexer::lemma_digits_end(bytes, pos + 1, Digits::Decimal);
    }
    if pos + 2 <= bytes.len() {
        lexer::lemma_digits_end(bytes, pos + 2, Digits::Decimal);
    }
}

proof fn lemma_number_end(bytes: Seq<u8>, pos: int)
    requires
        0 <= pos < bytes.len(),
    ensures
        pos < lexer::number_end(bytes, pos) <= bytes.len(),
{
    let letter = cursor::byte_at(bytes, pos + 1);
    if letter is Some {
        lexer::lemma_digits_end(bytes, pos + 2, Digits::Hex);
        lexer::lemma_digits_end(bytes, pos + 2, Digits::Octal);
        lexer::lemma_digits_end(bytes, pos + 2, Digits::Binary);
    }
    lexer::lemma_digits_end(bytes, pos + 1, Digits::Decimal);
    let whole = lexer::digits_end(bytes, pos + 1, Digits::Decimal);
    if cursor::byte_at(bytes, whole) == Some(46u8) {
        lexer::lemma_digits_end(bytes, whole + 1, Digits::Decimal);
        lemma_exponent_end(bytes, lexer::digits_end(bytes, whole + 1, Digits::Decimal));
    }
    lemma_exponent_end(bytes, whole);
}

proof fn lemma_punctuator(b0: u8, b1: Option<u8>, b2: Option<u8>, b3: Option<u8>)
    ensures
        ({
            let (kind, len) = lexer::punctuator(b0, b1, b2, b3);
            &&& kind != TokenKind::Eof
            &&& 1 <= len <= 4
            &&& len >= 2 ==> b1 is Some
            &&& len >= 3 ==> b2 is Some
            &&& len >= 4 ==> b3 is Some
        }),
{
}

/// A token that is not the end is no end-of-file token, takes up at least one byte from
/// the position on, and reading goes on behind it.
pub proof fn law_token_advances(s: LexState, newline: bool)
    requires
        valid(s),
        s.pos < s.bytes.len(),
    ensures
        ({
            let (next, token) = s.token(newline);
            &&& next.bytes == s.bytes
            &&& s.pos < next.pos <= s.bytes.len()
            &&& token == lexer::token_at(token.kind, s.pos, next.pos, newline)
            &&& token.kind != TokenKind::Eof
        }),
{
    let b = s.bytes[s.pos];
    if s.closes_hole() || b == 96 {
        lemma_template_end(s.bytes, s.pos + 1);
    } else if cursor::id_start(b) {
        utf8::is_char_boundary_iff_not_is_continuation_byte(s.bytes, s.pos);
        cursor::lemma_char_width(s.bytes, s.pos);
        lexer::lemma_ident_end(s.bytes, s.pos + 1);
    } else if cursor::ascii_digit(b) {
        lemma_number_end(s.bytes, s.pos);
    } else if b == 39 || b == 34 {
        lemma_string_end(s.bytes, s.pos + 1, b);
    } else if b == 46 && s.dot_number() {
        lexer::lemma_digits_end(s.bytes, s.pos + 1, Digits::Decimal);
        lemma_exponent_end(
            s.bytes,
            lexer::digits_end(s.bytes, s.pos + 1, Digits::Decimal),
        );
    } else if b >= 0x80 {
        if cursor::char_at(s.bytes, s.pos) is Some {
            cursor::lemma_char_width(s.bytes, s.pos);
            lexer::lemma_unicode_end(s.bytes, s.pos + cursor::char_width(b));
        }
    } else {
        let at = |i: int| cursor::byte_at(s.bytes, s.pos + i);
        lemma_punctuator(b, at(1), at(2), at(3));
    }
}

/// Reading stays inside of the text and never goes back. The end-of-file token comes at
/// the end of the text and only there; any other token takes up text.
pub proof fn law_next_inside(s: LexState)
    requires
        valid(s),
    ensures
        ({
            let (next, token) = s.next();
            &&& valid(next)
            &&& next.bytes == s.bytes
            &&& s.pos <= next.pos
            &&& token.kind == TokenKind::Eof ==> next.pos == s.bytes.len()
            &&& token.kind != TokenKind::Eof ==> s.pos < next.pos && s.pos < s.bytes.len()
            &&& s.bytes.len() <= u32::MAX ==> lies(token, s.pos, next.pos) && token.span.end
                == next.pos
        }),
{
    lemma_blank_end(s.bytes, s.pos, s.newline);
    let (pos, newline) = lexer::blank_end(s.bytes, s.pos, s.newline);
    if pos < s.bytes.len() {
        law_token_advances(LexState { pos, newline: false, ..s }, newline);
    }
}

/// A stream of tokens ends with an end-of-file token, and holds no other. Its tokens lie
/// inside of the text, one behind the other.
pub proof fn law_stream(s: LexState)
    requires
        valid(s),
    ensures
        ({
            let (end, tokens) = lexer::lexed(s);
            &&& valid(end)
            &&& end.pos == s.bytes.len()
            &&& end.bytes == s.bytes
            &&& tokens.len() > 0
            &&& forall|i: int| #![trigger tokens[i]]
                0 <= i < tokens.len() ==> (tokens[i].kind == TokenKind::Eof) == (i
                    == tokens.len() - 1)
            &&& s.bytes.len() <= u32::MAX ==> forall|i: int|
                #![trigger tokens[i]]
                0 <= i < tokens.len() ==> lies(tokens[i], s.pos, s.bytes.len() as int)
            &&& s.bytes.len() <= u32::MAX ==> forall|i: int, j: int|
                #![trigger tokens[i], tokens[j]]
                0 <= i < j < tokens.len() ==> tokens[i].span.end <= tokens[j].span.start
        }),
    decreases s.bytes.len() - s.pos,
{
    law_next_inside(s);
    let (next, token) = s.next();
    if token.kind != TokenKind::Eof {
        law_stream(next);
        let (end, rest) = lexer::lexed(next);
        let tokens = lexer::lexed(s).1;
        assert(tokens == seq![token] + rest);
        assert forall|i: int| #![trigger tokens[i]] 1 <= i < tokens.len() implies tokens[i]
            == rest[i - 1] by {}
    }
}

/// Reading a token forgets no interned string.
pub proof fn law_next_keeps_strings(s: LexState)
    ensures
        s.table.is_prefix_of(s.next().0.table),
{
    assert forall|text: Seq<char>| s.table.is_prefix_of(
        #[trigger] interner::interned(s.table, text),
    ) by {}
}

/// Reading a text forgets no interned string.
pub proof fn law_stream_keeps_strings(s: LexState)
    ensures
        s.table.is_prefix_of(lexer::lexed(s).0.table),
    decreases lexer::left(s.bytes, s.pos),
{
    law_next_keeps_strings(s);
    let (next, token) = s.next();
    if token.kind != TokenKind::Eof && next.pos > s.pos && next.bytes == s.bytes && s.pos
        < s.bytes.len() {
        law_stream_keeps_strings(next);
        let end = lexer::lexed(next).0.table;
        assert(s.table =~= end.subrange(0, s.table.len() as int));
    }
}

} // verus!
