//! Escape sequences, and the parts of literal texts.

use vstd::prelude::*;
use crate::runtime::number_literal;
use crate::runtime::number_literal::value_of_digit;
use crate::util::text::chars_of;

verus! {

/// Whether a number is the code of a character.
pub open spec fn scalar(code: u32) -> bool {
    code <= 0xD7FF || (0xE000 <= code && code <= 0x10FFFF)
}

/// The character of a code, as a text; empty for a code that no character has.
pub open spec fn scalar_text(code: u32) -> Seq<char> {
    if scalar(code) {
        seq![code as char]
    } else {
        Seq::empty()
    }
}

/// `char::from_u32` gives the character of a code, and nothing for a surrogate code or
/// one beyond the last character.
pub assume_specification[ char::from_u32 ](code: u32) -> (c: Option<char>)
    ensures
        c == if scalar(code) {
            Some(code as char)
        } else {
            None
        },
;

/// The position of the next closing brace, or the end.
pub open spec fn brace_end(s: Seq<char>, i: int) -> int
    decreases s.len() - i,
{
    if 0 <= i < s.len() && s[i] != '}' {
        brace_end(s, i + 1)
    } else {
        i
    }
}

/// The number that the hexadecimal digits between two positions spell, in 32 bits, with
/// whatever else stands there left out.
pub open spec fn loose_code(s: Seq<char>, from: int, to: int) -> u32
    decreases to - from,
{
    if to <= from {
        0
    } else {
        let code = loose_code(s, from, to - 1);
        let d = number_literal::digit_value(s[to - 1]);
        if d < 16 {
            ((code * 16 + d) % 0x1_0000_0000) as u32
        } else {
            code
        }
    }
}

/// Whether four hexadecimal digits stand at a position.
pub open spec fn four_digits(s: Seq<char>, i: int) -> bool {
    i + 4 <= s.len() && number_literal::digit_value(s[i]) < 16 && number_literal::digit_value(
        s[i + 1],
    ) < 16 && number_literal::digit_value(s[i + 2]) < 16 && number_literal::digit_value(s[i + 3])
        < 16
}

/// A name from a position on with its `\uXXXX` and `\u{XXXX}` escapes decoded.
pub open spec fn decoded(s: Seq<char>, i: int) -> Seq<char>
    decreases s.len() - i,
    when 0 <= i
    via decoded_ends
{
    if i >= s.len() {
        Seq::empty()
    } else if s[i] == '\\' && i + 1 < s.len() && s[i + 1] == 'u' {
        let at = i + 2;
        if at < s.len() && s[at] == '{' {
            let close = brace_end(s, at + 1);
            scalar_text(loose_code(s, at + 1, close)) + decoded(
                s,
                if close < s.len() {
                    close + 1
                } else {
                    close
                },
            )
        } else if four_digits(s, at) {
            scalar_text(loose_code(s, at, at + 4)) + decoded(s, at + 4)
        } else {
            decoded(s, at)
        }
    } else {
        seq![s[i]] + decoded(s, i + 1)
    }
}

#[via_fn]
proof fn decoded_ends(s: Seq<char>, i: int) {
    if i + 3 <= s.len() {
        lemma_brace_end(s, i + 3);
    }
}

proof fn lemma_brace_end(s: Seq<char>, i: int)
    requires
        0 <= i <= s.len(),
    ensures
        i <= brace_end(s, i) <= s.len(),
    decreases s.len() - i,
{
    if i < s.len() && s[i] != '}' {
        lemma_brace_end(s, i + 1);
    }
}

/// A name without a backslash is its own decoding.
pub proof fn law_decode_plain(s: Seq<char>, i: int)
    requires
        0 <= i <= s.len(),
        forall|j: int| i <= j < s.len() ==> s[j] != '\\',
    ensures
        decoded(s, i) == s.skip(i),
    decreases s.len() - i,
{
    if i < s.len() {
        law_decode_plain(s, i + 1);
        assert(seq![s[i]] + s.skip(i + 1) =~= s.skip(i));
    } else {
        assert(s.skip(i) =~= Seq::empty());
    }
}

fn find_brace_end(s: &Vec<char>, from: usize) -> (end: usize)
    requires
        from <= s@.len(),
    ensures
        end as int == brace_end(s@, from as int),
        from <= end <= s@.len(),
{
    let mut i: usize = from;
    while i < s.len() && s[i] != '}'
        invariant
            from <= i <= s@.len(),
            brace_end(s@, from as int) == brace_end(s@, i as int),
        decreases s@.len() - i,
    {
        i = i + 1;
    }
    i
}

fn read_loose_code(s: &Vec<char>, from: usize, to: usize) -> (code: u32)
    requires
        from <= to <= s@.len(),
    ensures
        code == loose_code(s@, from as int, to as int),
{
    let mut code: u32 = 0;
    let mut i: usize = from;
    while i < to
        invariant
            from <= i <= to <= s@.len(),
            code == loose_code(s@, from as int, i as int),
        decreases to - i,
    {
        let d: u32 = value_of_digit(s[i]);
        if d < 16 {
            code = ((code as u64 * 16 + d as u64) % 0x1_0000_0000) as u32;
        }
        i = i + 1;
    }
    code
}

fn has_four_digits(s: &Vec<char>, i: usize) -> (result: bool)
    requires
        i <= s@.len(),
    ensures
        result == four_digits(s@, i as int),
{
    s.len() - i >= 4 && value_of_digit(s[i]) < 16 && value_of_digit(s[i + 1]) < 16
        && value_of_digit(s[i + 2]) < 16 && value_of_digit(s[i + 3]) < 16
}

/// Append the character of a code, if there is one.
fn push_scalar(out: &mut String, code: u32)
    ensures
        final(out)@ == old(out)@ + scalar_text(code),
{
    match char::from_u32(code) {
        Some(c) => {
            out.push(c);
            assert(out@ =~= old(out)@ + scalar_text(code));
        },
        None => {
            assert(out@ =~= old(out)@ + scalar_text(code));
        },
    }
}

/// Decode `\uXXXX` and `\u{XXXX}` escapes in an identifier.
pub fn decode_unicode_escapes(text: &str) -> (out: String)
    ensures
        out@ == decoded(text@, 0),
{
    let s = chars_of(text);
    let mut out: String = String::new();
    let mut i: usize = 0;
    assert(out@ + decoded(s@, 0) =~= decoded(s@, 0));
    while i < s.len()
        invariant
            i <= s@.len(),
            out@ + decoded(s@, i as int) == decoded(s@, 0),
        decreases s@.len() - i,
    {
        let ghost before = out@;
        let ghost from = i as int;
        assert(s@.len() == s.len());
        if s[i] == '\\' && i + 1 < s.len() && s[i + 1] == 'u' {
            i = i + 2;
            if i < s.len() && s[i] == '{' {
                let close: usize = find_brace_end(&s, i + 1);
                let code: u32 = read_loose_code(&s, i + 1, close);
                push_scalar(&mut out, code);
                i = if close < s.len() {
                    close + 1
                } else {
                    close
                };
                assert(out@ + decoded(s@, i as int) =~= before + decoded(s@, from));
            } else if has_four_digits(&s, i) {
                let code: u32 = read_loose_code(&s, i, i + 4);
                push_scalar(&mut out, code);
                i = i + 4;
                assert(out@ + decoded(s@, i as int) =~= before + decoded(s@, from));
            }
        } else {
            out.push(s[i]);
            i = i + 1;
            assert(out@ + decoded(s@, i as int) =~= before + decoded(s@, from));
        }
    }
    assert(out@ + decoded(s@, i as int) =~= out@);
    out
}

/// The number that a text of hexadecimal digits denotes in 32 bits, if it denotes one; a
/// plus sign may lead.
pub open spec fn hex_code(s: Seq<char>) -> Option<u32> {
    let digits = if s.len() > 0 && s[0] == '+' {
        s.skip(1)
    } else {
        s
    };
    let value = number_literal::numeral_value(digits, 16);
    if digits.len() == 0 || !number_literal::all_digits(digits, 16) || value > u32::MAX {
        None
    } else {
        Some(value as u32)
    }
}

/// The character of a code that may not be there, as a text.
pub open spec fn optional_scalar(code: Option<u32>) -> Seq<char> {
    match code {
        Some(code) => scalar_text(code),
        None => Seq::empty(),
    }
}

/// The character of an escape of one letter.
pub open spec fn simple_escape(c: char) -> char {
    if c == 'n' {
        '\n'
    } else if c == 'r' {
        '\r'
    } else if c == 't' {
        '\t'
    } else if c == 'b' {
        '\u{8}'
    } else if c == 'f' {
        '\u{c}'
    } else if c == 'v' {
        '\u{b}'
    } else {
        c
    }
}

/// The end of a stretch of a text, cut off where the text ends.
pub open spec fn cut(s: Seq<char>, end: int) -> int {
    if end < s.len() {
        end
    } else {
        s.len() as int
    }
}

/// What an escape sequence stands for, given the position of the character behind its
/// backslash, and the position behind it.
pub open spec fn escape_at(s: Seq<char>, i: int) -> (Seq<char>, int) {
    let at = i + 1;
    if s[i] == 'u' && at < s.len() && s[at] == '{' {
        let close = brace_end(s, at + 1);
        (optional_scalar(hex_code(s.subrange(at + 1, close))), cut(s, close + 1))
    } else if s[i] == 'u' {
        (optional_scalar(hex_code(s.subrange(at, cut(s, at + 4)))), cut(s, at + 4))
    } else if s[i] == 'x' {
        (optional_scalar(hex_code(s.subrange(at, cut(s, at + 2)))), cut(s, at + 2))
    } else if s[i] == '0' && !(at < s.len() && '0' <= s[at] <= '9') {
        (seq!['\0'], at)
    } else {
        (seq![simple_escape(s[i])], at)
    }
}

/// The content of a string literal from a position on, with its escapes replaced.
pub open spec fn unescaped(s: Seq<char>, i: int) -> Seq<char>
    decreases s.len() - i,
    when 0 <= i
    via unescaped_ends
{
    if i >= s.len() {
        Seq::empty()
    } else if s[i] != '\\' {
        seq![s[i]] + unescaped(s, i + 1)
    } else if i + 1 >= s.len() {
        seq!['\\']
    } else {
        let (text, next) = escape_at(s, i + 1);
        text + unescaped(s, next)
    }
}

#[via_fn]
proof fn unescaped_ends(s: Seq<char>, i: int) {
    if i + 3 <= s.len() {
        lemma_brace_end(s, i + 3);
    }
}

/// A string literal without a backslash stands for what is written.
pub proof fn law_unescape_plain(s: Seq<char>, i: int)
    requires
        0 <= i <= s.len(),
        forall|j: int| i <= j < s.len() ==> s[j] != '\\',
    ensures
        unescaped(s, i) == s.skip(i),
    decreases s.len() - i,
{
    if i < s.len() {
        law_unescape_plain(s, i + 1);
        assert(seq![s[i]] + s.skip(i + 1) =~= s.skip(i));
    } else {
        assert(s.skip(i) =~= Seq::empty());
    }
}

/// The number between two positions, as `hex_code` reads it.
fn read_hex_code(s: &Vec<char>, from: usize, to: usize) -> (code: Option<u32>)
    requires
        from <= to <= s@.len(),
    ensures
        code == hex_code(s@.subrange(from as int, to as int)),
{
    let ghost hex = s@.subrange(from as int, to as int);
    let signed: bool = from < to && s[from] == '+';
    let start: usize = if signed {
        from + 1
    } else {
        from
    };
    let ghost digits = s@.subrange(start as int, to as int);
    assert(digits =~= if signed {
        hex.skip(1)
    } else {
        hex
    });
    assert(signed == (hex.len() > 0 && hex[0] == '+'));
    if start == to {
        return None;
    }
    let mut value: u64 = 0;
    let mut i: usize = start;
    assert(digits.take(0).len() == 0);
    while i < to
        invariant
            from <= start <= i <= to <= s@.len(),
            hex == s@.subrange(from as int, to as int),
            signed == (hex.len() > 0 && hex[0] == '+'),
            digits == if signed {
                hex.skip(1)
            } else {
                hex
            },
            digits == s@.subrange(start as int, to as int),
            forall|j: int|
                0 <= j < i - start ==> number_literal::digit_value(#[trigger] digits[j]) < 16,
            ({
                let v = number_literal::numeral_value(digits.take(i - start), 16);
                if v < 0x1_0000_0000 {
                    value as nat == v
                } else {
                    value == 0x1_0000_0000
                }
            }),
        decreases to - i,
    {
        let d: u32 = value_of_digit(s[i]);
        assert(digits[i - start] == s@[i as int]);
        if d >= 16 {
            assert(!number_literal::all_digits(digits, 16));
            return None;
        }
        proof {
            let now = digits.take(i + 1 - start);
            assert(now.drop_last() =~= digits.take(i - start));
            assert(now.last() == s@[i as int]);
        }
        value = value * 16 + d as u64;
        if value >= 0x1_0000_0000 {
            value = 0x1_0000_0000;
        }
        i = i + 1;
    }
    assert(digits.take(i - start) =~= digits);
    assert(number_literal::all_digits(digits, 16));
    if value > 0xFFFF_FFFF {
        None
    } else {
        Some(value as u32)
    }
}

fn push_code(out: &mut String, code: Option<u32>)
    ensures
        final(out)@ == old(out)@ + optional_scalar(code),
{
    match code {
        Some(code) => {
            push_scalar(out, code);
        },
        None => {
            assert(out@ =~= old(out)@ + optional_scalar(code));
        },
    }
}

fn find_cut(s: &Vec<char>, from: usize, more: usize) -> (end: usize)
    requires
        from <= s@.len(),
    ensures
        end as int == cut(s@, from + more),
        from <= end <= s@.len(),
{
    if s.len() - from > more {
        from + more
    } else {
        s.len()
    }
}

/// Append what an escape sequence stands for, and give the position behind it.
fn push_escape(out: &mut String, s: &Vec<char>, i: usize) -> (next: usize)
    requires
        i < s@.len(),
    ensures
        final(out)@ == old(out)@ + escape_at(s@, i as int).0,
        next as int == escape_at(s@, i as int).1,
        i < next <= s@.len(),
{
    assert(s@.len() == s.len());
    let at: usize = i + 1;
    let c: char = s[i];
    if c == 'u' && at < s.len() && s[at] == '{' {
        let close: usize = find_brace_end(s, at + 1);
        let code = read_hex_code(s, at + 1, close);
        push_code(out, code);
        find_cut(s, close, 1)
    } else if c == 'u' {
        let end: usize = find_cut(s, at, 4);
        let code = read_hex_code(s, at, end);
        push_code(out, code);
        end
    } else if c == 'x' {
        let end: usize = find_cut(s, at, 2);
        let code = read_hex_code(s, at, end);
        push_code(out, code);
        end
    } else {
        let plain: char = if c == '0' && !(at < s.len() && '0' <= s[at] && s[at] <= '9') {
            '\0'
        } else if c == 'n' {
            '\n'
        } else if c == 'r' {
            '\r'
        } else if c == 't' {
            '\t'
        } else if c == 'b' {
            '\u{8}'
        } else if c == 'f' {
            '\u{c}'
        } else if c == 'v' {
            '\u{b}'
        } else {
            c
        };
        out.push(plain);
        assert(out@ =~= old(out)@ + escape_at(s@, i as int).0);
        at
    }
}

/// Replace the escape sequences in the content of a string literal.
pub fn unescape_string(text: &str) -> (out: String)
    ensures
        out@ == unescaped(text@, 0),
{
    let s = chars_of(text);
    let mut out: String = String::new();
    let mut i: usize = 0;
    assert(out@ + unescaped(s@, 0) =~= unescaped(s@, 0));
    while i < s.len()
        invariant
            i <= s@.len(),
            out@ + unescaped(s@, i as int) == unescaped(s@, 0),
        decreases s@.len() - i,
    {
        let ghost before = out@;
        let ghost from = i as int;
        assert(s@.len() == s.len());
        if s[i] != '\\' {
            out.push(s[i]);
            i = i + 1;
        } else if i + 1 >= s.len() {
            out.push('\\');
            i = i + 1;
        } else {
            i = push_escape(&mut out, &s, i + 1);
        }
        assert(out@ + unescaped(s@, i as int) =~= before + unescaped(s@, from));
    }
    assert(out@ + unescaped(s@, i as int) =~= out@);
    out
}

/// A text without its first and last characters, empty where the text is too short.
pub open spec fn inner(s: Seq<char>, front: int, back: int) -> Seq<char> {
    if front + back <= s.len() {
        s.subrange(front, s.len() - back)
    } else {
        Seq::empty()
    }
}

/// The text between two positions of a list of characters.
fn text_of_range(s: &Vec<char>, from: usize, to: usize) -> (out: String)
    requires
        from <= to <= s@.len(),
    ensures
        out@ == s@.subrange(from as int, to as int),
{
    let mut out: String = String::new();
    let mut i: usize = from;
    assert(out@ =~= s@.subrange(from as int, from as int));
    while i < to
        invariant
            from <= i <= to <= s@.len(),
            out@ == s@.subrange(from as int, i as int),
        decreases to - i,
    {
        out.push(s[i]);
        i = i + 1;
        assert(out@ =~= s@.subrange(from as int, i as int));
    }
    out
}

/// A text without its first and last characters.
pub fn inner_text(text: &str, front: usize, back: usize) -> (out: String)
    requires
        front + back <= usize::MAX,
    ensures
        out@ == inner(text@, front as int, back as int),
{
    let s = chars_of(text);
    if front + back <= s.len() {
        text_of_range(&s, front, s.len() - back)
    } else {
        let out: String = String::new();
        assert(out@ =~= Seq::empty());
        out
    }
}

/// A text without the letters `n` at its end.
pub open spec fn trimmed(s: Seq<char>) -> Seq<char>
    decreases s.len(),
{
    if s.len() > 0 && s.last() == 'n' {
        trimmed(s.drop_last())
    } else {
        s
    }
}

/// A text without the letters `n` at its end.
pub fn trim_suffix(text: &str) -> (out: String)
    ensures
        out@ == trimmed(text@),
{
    let s = chars_of(text);
    let mut end: usize = s.len();
    assert(s@.subrange(0, end as int) =~= s@);
    while end > 0 && s[end - 1] == 'n'
        invariant
            end <= s@.len(),
            trimmed(s@.subrange(0, end as int)) == trimmed(s@),
        decreases end,
    {
        assert(s@.subrange(0, end as int).drop_last() =~= s@.subrange(0, end - 1));
        end = end - 1;
    }
    text_of_range(&s, 0, end)
}

/// The last position of a slash before a position; -1 for none.
pub open spec fn slash_before(s: Seq<char>, end: int) -> int
    decreases end,
{
    if end <= 0 || end > s.len() {
        -1
    } else if s[end - 1] == '/' {
        end - 1
    } else {
        slash_before(s, end - 1)
    }
}

/// The pattern and the flags of a regular expression literal: what stands before and
/// behind the last slash that is not the first character.
pub open spec fn regexp_of(s: Seq<char>) -> (Seq<char>, Seq<char>) {
    let body = inner(s, 1, 0);
    let slash = slash_before(body, body.len() as int);
    if slash < 0 {
        (body, Seq::empty())
    } else {
        (body.subrange(0, slash), body.subrange(slash + 1, body.len() as int))
    }
}

/// The pattern and the flags of a regular expression literal.
pub fn regexp_parts(text: &str) -> (parts: (String, String))
    ensures
        (parts.0@, parts.1@) == regexp_of(text@),
{
    let content = inner_text(text, 1, 0);
    let s = chars_of(content.as_str());
    let mut end: usize = s.len();
    while end > 0 && s[end - 1] != '/'
        invariant
            end <= s@.len(),
            slash_before(s@, end as int) == slash_before(s@, s@.len() as int),
        decreases end,
    {
        end = end - 1;
    }
    if end == 0 {
        let flags: String = String::new();
        assert(flags@ =~= Seq::empty());
        (content, flags)
    } else {
        (text_of_range(&s, 0, end - 1), text_of_range(&s, end, s.len()))
    }
}

} // verus!
