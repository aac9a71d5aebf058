//! A cursor over source text, and character classes.

use vstd::prelude::*;
use vstd::string::*;
use vstd::utf8;
use crate::lexer::unicode;

verus! {

/// Whether `char::is_alphabetic` holds of a character.
pub uninterp spec fn alphabetic(c: char) -> bool;

/// Whether `char::is_alphanumeric` holds of a character.
pub uninterp spec fn alphanumeric(c: char) -> bool;

/// `char::is_alphabetic` depends on the character alone.
pub assume_specification[ char::is_alphabetic ](c: char) -> (result: bool)
    ensures
        result == alphabetic(c),
;

/// `char::is_alphanumeric` depends on the character alone.
pub assume_specification[ char::is_alphanumeric ](c: char) -> (result: bool)
    ensures
        result == alphanumeric(c),
;

/// The byte at a position, if there is one.
pub open spec fn byte_at(bytes: Seq<u8>, pos: int) -> Option<u8> {
    if 0 <= pos < bytes.len() {
        Some(bytes[pos])
    } else {
        None
    }
}

/// The character that starts at a position: none at the end of the text, and none inside
/// of a character.
pub open spec fn char_at(bytes: Seq<u8>, pos: int) -> Option<char> {
    if 0 <= pos < bytes.len() && utf8::is_char_boundary(bytes, pos) {
        Some(utf8::decode_utf8(bytes.subrange(pos, bytes.len() as int))[0])
    } else {
        None
    }
}

/// The number of bytes of a character, by the first of them.
pub open spec fn char_width(first: u8) -> int {
    if first < 0x80 {
        1
    } else if first < 0xE0 {
        2
    } else if first < 0xF0 {
        3
    } else {
        4
    }
}

/// The text between two positions.
pub open spec fn text_between(bytes: Seq<u8>, start: int, end: int) -> Seq<char> {
    utf8::decode_utf8(bytes.subrange(start, end))
}

/// The line number of a position: 1, and one more for each line feed before it.
pub open spec fn line_of(bytes: Seq<u8>, pos: nat) -> u32
    decreases pos,
{
    if pos == 0 {
        1
    } else {
        let line = line_of(bytes, (pos - 1) as nat);
        if bytes[pos - 1] == 10u8 {
            line.wrapping_add(1)
        } else {
            line
        }
    }
}

/// The position behind the last line feed before a position, or 0.
pub open spec fn line_start_of(bytes: Seq<u8>, pos: nat) -> nat
    decreases pos,
{
    if pos == 0 {
        0
    } else if bytes[pos - 1] == 10u8 {
        pos
    } else {
        line_start_of(bytes, (pos - 1) as nat)
    }
}

proof fn lemma_line_start(bytes: Seq<u8>, pos: nat)
    ensures
        line_start_of(bytes, pos) <= pos,
    decreases pos,
{
    if pos > 0 {
        lemma_line_start(bytes, (pos - 1) as nat);
    }
}

/// What a source text holds: valid UTF-8, and its view is what the bytes encode.
pub proof fn lemma_source_text(source: &str)
    ensures
        utf8::valid_utf8(source.spec_bytes()),
        utf8::decode_utf8(source.spec_bytes()) == source@,
{
    utf8::encode_utf8_valid_utf8(source@);
    utf8::encode_utf8_decode_utf8(source@);
}

/// The first byte of a character tells its width, and its bytes lie inside of the text.
pub proof fn lemma_char_width(bytes: Seq<u8>, pos: int)
    requires
        utf8::valid_utf8(bytes),
        0 <= pos < bytes.len(),
        utf8::is_char_boundary(bytes, pos),
    ensures
        pos + char_width(bytes[pos]) <= bytes.len(),
        utf8::is_char_boundary(bytes, pos + char_width(bytes[pos])),
        utf8::decode_utf8(bytes.subrange(pos, bytes.len() as int)).len() > 0,
{
    utf8::valid_utf8_split(bytes, pos);
    let rest = bytes.subrange(pos, bytes.len() as int);
    assert(utf8::valid_utf8(rest));
    assert(rest[0] == bytes[pos]);
    let width = char_width(bytes[pos]);
    assert(utf8::valid_first_scalar(rest));
    assert(utf8::length_of_first_scalar(rest) == width);
    let end = pos + width;
    if end < bytes.len() {
        let tail = utf8::pop_first_scalar(rest);
        assert(utf8::valid_utf8(tail));
        assert(tail[0] == bytes[end]);
        utf8::is_char_boundary_start_end_of_seq(tail);
        utf8::is_char_boundary_iff_not_is_continuation_byte(tail, 0);
        utf8::is_char_boundary_iff_not_is_continuation_byte(bytes, end);
    } else {
        utf8::is_char_boundary_start_end_of_seq(bytes);
    }
}

/// A cursor over source code bytes with position tracking.
pub struct Cursor<'a> {
    source: &'a str,
    bytes: &'a [u8],
    pos: usize,
    /// Line number (1-based).
    line: u32,
    /// Offset of the current line start.
    line_start: usize,
}

impl<'a> Cursor<'a> {
    /// The source text.
    pub closed spec fn text(&self) -> &'a str {
        self.source
    }

    /// The bytes of the source text.
    pub open spec fn bytes(&self) -> Seq<u8> {
        self.text().spec_bytes()
    }

    /// The position.
    pub closed spec fn at(&self) -> usize {
        self.pos
    }

    /// The position lies in the text, and line and line start are those of the position.
    pub closed spec fn wf(&self) -> bool {
        &&& self.bytes@ == self.source.spec_bytes()
        &&& self.pos <= self.bytes@.len()
        &&& self.line == line_of(self.bytes@, self.pos as nat)
        &&& self.line_start == line_start_of(self.bytes@, self.pos as nat)
    }

    /// The position lies in the text.
    pub proof fn lemma_inside(&self)
        requires
            self.wf(),
        ensures
            self.at() <= self.bytes().len(),
    {
    }

    /// A cursor at the start of a source text.
    pub fn new(source: &'a str) -> (cursor: Self)
        ensures
            cursor.wf(),
            cursor.text() == source,
            cursor.at() == 0,
    {
        Cursor { source, bytes: source.as_bytes(), pos: 0, line: 1, line_start: 0 }
    }

    /// Current byte position in the source.
    pub fn pos(&self) -> (pos: usize)
        requires
            self.wf(),
        ensures
            pos == self.at(),
            pos <= self.bytes().len(),
    {
        self.pos
    }

    /// Current line number (1-based).
    pub fn line(&self) -> (line: u32)
        requires
            self.wf(),
        ensures
            line == line_of(self.bytes(), self.at() as nat),
    {
        self.line
    }

    /// Current column (0-based).
    pub fn column(&self) -> (column: u32)
        requires
            self.wf(),
        ensures
            column == (self.at() - line_start_of(self.bytes(), self.at() as nat)) as u32,
    {
        proof {
            lemma_line_start(self.bytes@, self.pos as nat);
        }
        (self.pos - self.line_start) as u32
    }

    /// Are we at the end of the source?
    pub fn is_eof(&self) -> (eof: bool)
        requires
            self.wf(),
        ensures
            eof == (self.at() >= self.bytes().len()),
    {
        self.pos >= self.bytes.len()
    }

    /// Peek the current byte without consuming.
    pub fn peek(&self) -> (byte: Option<u8>)
        requires
            self.wf(),
        ensures
            byte == byte_at(self.bytes(), self.at() as int),
    {
        if self.pos < self.bytes.len() {
            Some(self.bytes[self.pos])
        } else {
            None
        }
    }

    /// Peek the byte at offset from current position.
    pub fn peek_at(&self, offset: usize) -> (byte: Option<u8>)
        requires
            self.wf(),
        ensures
            byte == byte_at(self.bytes(), self.at() + offset),
    {
        let left: usize = self.bytes.len() - self.pos;
        if offset < left {
            Some(self.bytes[self.pos + offset])
        } else {
            None
        }
    }

    /// Peek the current character (handles multi-byte UTF-8).
    pub fn peek_char(&self) -> (c: Option<char>)
        requires
            self.wf(),
        ensures
            c == char_at(self.bytes(), self.at() as int),
    {
        proof {
            lemma_source_text(self.source);
        }
        if self.pos >= self.bytes.len() || !self.source.is_char_boundary(self.pos) {
            return None;
        }
        let rest = self.source.split_at(self.pos).1;
        proof {
            lemma_source_text(rest);
            lemma_char_width(self.bytes@, self.pos as int);
            broadcast use vstd::string::axiom_spec_iter, vstd::string::next_postcondition;
        }
        rest.chars().next()
    }

    /// Advance by one byte and return it.
    pub fn advance(&mut self) -> (byte: Option<u8>)
        requires
            old(self).wf(),
        ensures
            final(self).wf(),
            final(self).text() == old(self).text(),
            byte == byte_at(old(self).bytes(), old(self).at() as int),
            final(self).at() == (if old(self).at() < old(self).bytes().len() {
                old(self).at() + 1
            } else {
                old(self).at() as int
            }),
    {
        if self.pos >= self.bytes.len() {
            return None;
        }
        let byte: u8 = self.bytes[self.pos];
        assert(self.bytes@.len() == self.bytes.len());
        self.pos = self.pos + 1;
        if byte == 10u8 {
            self.line = self.line.wrapping_add(1);
            self.line_start = self.pos;
        }
        Some(byte)
    }

    /// Advance by one character (handles multi-byte UTF-8) and return it.
    pub fn advance_char(&mut self) -> (c: Option<char>)
        requires
            old(self).wf(),
        ensures
            final(self).wf(),
            final(self).text() == old(self).text(),
            c == char_at(old(self).bytes(), old(self).at() as int),
            final(self).at() == old(self).at() + (if c is Some {
                char_width(old(self).bytes()[old(self).at() as int])
            } else {
                0
            }),
    {
        let c = self.peek_char();
        match c {
            None => None,
            Some(c) => {
                let first: u8 = self.bytes[self.pos];
                proof {
                    lemma_source_text(self.source);
                    lemma_char_width(self.bytes@, self.pos as int);
                }
                let width: usize = if first < 0x80 {
                    1
                } else if first < 0xE0 {
                    2
                } else if first < 0xF0 {
                    3
                } else {
                    4
                };
                let mut done: usize = 0;
                while done < width
                    invariant
                        done <= width,
                        self.wf(),
                        self.text() == old(self).text(),
                        self.at() == old(self).at() + done,
                        old(self).at() + width <= old(self).bytes().len(),
                    decreases width - done,
                {
                    self.advance();
                    done = done + 1;
                }
                Some(c)
            },
        }
    }

    /// Advance if the current byte matches `expected`.
    pub fn eat(&mut self, expected: u8) -> (eaten: bool)
        requires
            old(self).wf(),
        ensures
            final(self).wf(),
            final(self).text() == old(self).text(),
            eaten == (byte_at(old(self).bytes(), old(self).at() as int) == Some(expected)),
            final(self).at() == old(self).at() + (if eaten {
                1int
            } else {
                0
            }),
    {
        match self.peek() {
            Some(byte) => {
                if byte == expected {
                    self.advance();
                    true
                } else {
                    false
                }
            },
            None => false,
        }
    }

    /// Advance while `predicate` returns true for the current byte.
    pub fn skip_while<F: Fn(u8) -> bool>(&mut self, predicate: F)
        requires
            old(self).wf(),
            forall|b: u8| call_requires(predicate, (b,)),
        ensures
            final(self).wf(),
            final(self).text() == old(self).text(),
            old(self).at() <= final(self).at() <= old(self).bytes().len(),
            forall|i: int|
                old(self).at() <= i < final(self).at() ==> call_ensures(
                    predicate,
                    (#[trigger] old(self).bytes()[i],),
                    true,
                ),
            final(self).at() < old(self).bytes().len() ==> call_ensures(
                predicate,
                (old(self).bytes()[final(self).at() as int],),
                false,
            ),
    {
        while self.pos < self.bytes.len()
            invariant_except_break
                self.wf(),
                self.text() == old(self).text(),
                old(self).at() <= self.at() <= old(self).bytes().len(),
                forall|b: u8| call_requires(predicate, (b,)),
                forall|i: int|
                    old(self).at() <= i < self.at() ==> call_ensures(
                        predicate,
                        (#[trigger] old(self).bytes()[i],),
                        true,
                    ),
            ensures
                self.wf(),
                self.text() == old(self).text(),
                old(self).at() <= self.at() <= old(self).bytes().len(),
                forall|i: int|
                    old(self).at() <= i < self.at() ==> call_ensures(
                        predicate,
                        (#[trigger] old(self).bytes()[i],),
                        true,
                    ),
                self.at() < old(self).bytes().len() ==> call_ensures(
                    predicate,
                    (old(self).bytes()[self.at() as int],),
                    false,
                ),
            decreases old(self).bytes().len() - self.at(),
        {
            let byte: u8 = self.bytes[self.pos];
            if predicate(byte) {
                self.advance();
            } else {
                break ;
            }
        }
    }

    /// Get a slice of the source from `start` to current position.
    pub fn slice_from(&self, start: usize) -> (text: &'a str)
        requires
            self.wf(),
            start <= self.at(),
            utf8::is_char_boundary(self.bytes(), start as int),
            utf8::is_char_boundary(self.bytes(), self.at() as int),
        ensures
            text@ == text_between(self.bytes(), start as int, self.at() as int),
    {
        self.slice(start, self.pos)
    }

    /// Get a slice of the source between two positions.
    pub fn slice(&self, start: usize, end: usize) -> (text: &'a str)
        requires
            self.wf(),
            start <= end <= self.bytes().len(),
            utf8::is_char_boundary(self.bytes(), start as int),
            utf8::is_char_boundary(self.bytes(), end as int),
        ensures
            text@ == text_between(self.bytes(), start as int, end as int),
    {
        slice_of(self.source, start, end)
    }

    /// Get the entire source.
    pub fn source(&self) -> (text: &'a str)
        ensures
            text == self.text(),
    {
        self.source
    }
}

/// The text between two positions of a source text.
pub fn slice_of<'a>(source: &'a str, start: usize, end: usize) -> (text: &'a str)
    requires
        start <= end <= source.spec_bytes().len(),
        utf8::is_char_boundary(source.spec_bytes(), start as int),
        utf8::is_char_boundary(source.spec_bytes(), end as int),
    ensures
        text@ == text_between(source.spec_bytes(), start as int, end as int),
{
    let ghost bytes = source.spec_bytes();
    proof {
        lemma_source_text(source);
    }
    let rest = source.split_at(start).1;
    proof {
        lemma_source_text(rest);
        let tail = bytes.subrange(start as int, bytes.len() as int);
        let at = end - start;
        if end < bytes.len() {
            assert(tail[at] == bytes[end as int]);
            utf8::is_char_boundary_iff_not_is_continuation_byte(bytes, end as int);
            utf8::is_char_boundary_iff_not_is_continuation_byte(tail, at);
        } else {
            utf8::is_char_boundary_start_end_of_seq(tail);
        }
    }
    let text = rest.split_at(end - start).0;
    proof {
        lemma_source_text(text);
        assert(text.spec_bytes() =~= bytes.subrange(start as int, end as int));
    }
    text
}

/// Whether a byte is an ASCII letter.
pub open spec fn ascii_letter(b: u8) -> bool {
    97 <= b <= 122 || 65 <= b <= 90
}

/// Whether a byte is an ASCII decimal digit.
pub open spec fn ascii_digit(b: u8) -> bool {
    48 <= b <= 57
}

/// Whether a byte can start an ASCII identifier: a letter, underscore or dollar sign.
pub open spec fn id_start(b: u8) -> bool {
    ascii_letter(b) || b == 95 || b == 36
}

/// Whether a byte can continue an ASCII identifier.
pub open spec fn id_continue(b: u8) -> bool {
    id_start(b) || ascii_digit(b)
}

/// Check if a byte is an ASCII identifier start character (a-z, A-Z, _, $).
pub fn is_id_start(b: u8) -> (result: bool)
    ensures
        result == id_start(b),
{
    (97 <= b && b <= 122) || (65 <= b && b <= 90) || b == 95 || b == 36
}

/// Check if a byte is an ASCII identifier continue character (a-z, A-Z, 0-9, _, $).
pub fn is_id_continue(b: u8) -> (result: bool)
    ensures
        result == id_continue(b),
{
    is_id_start(b) || (48 <= b && b <= 57)
}

/// Whether a character has the property ID_Start.
pub open spec fn letter_like(c: char) -> bool {
    let code = c as u32;
    alphabetic(c) && !unicode::mark(code) && !unicode::symbol_letter(code) || unicode::extra_start(
        code,
    )
}

/// Whether a character has the general category Nd.
pub open spec fn decimal_digit(c: char) -> bool {
    alphanumeric(c) && !alphabetic(c) && !unicode::other_number(c as u32)
}

/// Whether a character can start a Unicode identifier.
pub open spec fn unicode_id_start(c: char) -> bool {
    c == '$' || c == '_' || letter_like(c)
}

/// Whether a character can continue a Unicode identifier.
pub open spec fn unicode_id_continue(c: char) -> bool {
    let code = c as u32;
    ||| c == '$' || c == '\u{200C}' || c == '\u{200D}'
    ||| letter_like(c)
    ||| unicode::mark(code)
    ||| decimal_digit(c)
    ||| unicode::connector(code)
    ||| unicode::extra_continue(code)
}

fn is_letter_like(c: char) -> (result: bool)
    ensures
        result == letter_like(c),
{
    let code: u32 = c as u32;
    (c.is_alphabetic() && !unicode::is_mark(code) && !unicode::is_symbol_letter(code))
        || unicode::is_extra_start(code)
}

fn is_decimal_digit(c: char) -> (result: bool)
    ensures
        result == decimal_digit(c),
{
    c.is_alphanumeric() && !c.is_alphabetic() && !unicode::is_other_number(c as u32)
}

/// Check if a character is a Unicode identifier start (ID_Start or $ or _).
pub fn is_unicode_id_start(c: char) -> (result: bool)
    ensures
        result == unicode_id_start(c),
{
    c == '$' || c == '_' || is_letter_like(c)
}

/// Check if a character is a Unicode identifier continue (ID_Continue or $ or a joiner).
pub fn is_unicode_id_continue(c: char) -> (result: bool)
    ensures
        result == unicode_id_continue(c),
{
    let code: u32 = c as u32;
    c == '$' || c == '\u{200C}' || c == '\u{200D}' || is_letter_like(c) || is_decimal_digit(c)
        || unicode::is_mark(code) || unicode::is_connector(code) || unicode::is_extra_continue(
        code,
    )
}

/// Check if a byte is a line terminator.
pub fn is_line_terminator(b: u8) -> (result: bool)
    ensures
        result == (b == 10 || b == 13),
{
    b == 10 || b == 13
}

} // verus!
