//! Texts as JSON strings.

use vstd::prelude::*;
use vstd::string::*;
use crate::util::text;
use crate::util::text::{chars_of, push_hex_byte};

verus! {

/// A character inside a JSON string. Backslashes, quotes and control characters are escaped.
pub open spec fn json_char(c: char) -> Seq<char> {
    if c == '\\' {
        seq!['\\', '\\']
    } else if c == '"' {
        seq!['\\', '"']
    } else if c == '\n' {
        seq!['\\', 'n']
    } else if c == '\r' {
        seq!['\\', 'r']
    } else if c == '\t' {
        seq!['\\', 't']
    } else if ' ' > c {
        let code = c as nat;
        seq!['\\', 'u', '0', '0', text::digit_char(code / 16), text::digit_char(code % 16)]
    } else {
        seq![c]
    }
}

/// A text inside a JSON string.
pub open spec fn json_text(s: Seq<char>) -> Seq<char>
    decreases s.len(),
{
    if s.len() == 0 {
        s
    } else {
        json_text(s.drop_last()) + json_char(s.last())
    }
}

/// Whether no control character occurs in a text.
pub open spec fn printable(s: Seq<char>) -> bool {
    forall|i: int| 0 <= i < s.len() ==> ' ' <= #[trigger] s[i]
}

/// The value of a hexadecimal digit.
pub open spec fn hex_value(c: char) -> Option<nat> {
    if '0' <= c <= '9' {
        Some((c as nat - '0' as nat) as nat)
    } else if 'a' <= c <= 'f' {
        Some((c as nat - 'a' as nat + 10) as nat)
    } else if 'A' <= c <= 'F' {
        Some((c as nat - 'A' as nat + 10) as nat)
    } else {
        None
    }
}

/// The number of four hexadecimal digits.
pub open spec fn hex_four(s: Seq<char>) -> Option<nat> {
    match (hex_value(s[0]), hex_value(s[1]), hex_value(s[2]), hex_value(s[3])) {
        (Some(a), Some(b), Some(c), Some(d)) => Some(a * 4096 + b * 256 + c * 16 + d),
        _ => None,
    }
}

/// The character at the start of the inside of a JSON string, and how much of the text
/// spells it, where there is one. Escapes of surrogates are left out.
pub open spec fn json_first(s: Seq<char>) -> Option<(char, nat)> {
    if s.len() == 0 || ' ' > s[0] || s[0] == '"' {
        None
    } else if s[0] != '\\' {
        Some((s[0], 1))
    } else if s.len() < 2 {
        None
    } else if s[1] == '\\' || s[1] == '"' || s[1] == '/' {
        Some((s[1], 2))
    } else if s[1] == 'n' {
        Some(('\n', 2))
    } else if s[1] == 'r' {
        Some(('\r', 2))
    } else if s[1] == 't' {
        Some(('\t', 2))
    } else if s[1] == 'b' {
        Some((8 as char, 2))
    } else if s[1] == 'f' {
        Some((12 as char, 2))
    } else if s[1] == 'u' && s.len() >= 6 {
        match hex_four(s.subrange(2, 6)) {
            Some(code) => if 0xD800 <= code <= 0xDFFF {
                None
            } else {
                Some((code as char, 6))
            },
            None => None,
        }
    } else {
        None
    }
}

/// The text that the inside of a JSON string spells, where it spells one.
pub open spec fn json_read(s: Seq<char>) -> Option<Seq<char>>
    decreases s.len(),
{
    if s.len() == 0 {
        Some(s)
    } else {
        match json_first(s) {
            Some((c, n)) => if 0 < n <= s.len() {
                match json_read(s.skip(n as int)) {
                    Some(rest) => Some(seq![c] + rest),
                    None => None,
                }
            } else {
                None
            },
            None => None,
        }
    }
}

proof fn lemma_digit_value(d: nat)
    requires
        d < 16,
    ensures
        hex_value(text::digit_char(d)) == Some(d),
        ' ' <= text::digit_char(d),
{
}

proof fn lemma_char_printable(c: char)
    ensures
        printable(json_char(c)),
{
    if ' ' > c {
        lemma_digit_value(c as nat / 16);
        lemma_digit_value(c as nat % 16);
    }
}

/// No control character stands in the inside of a JSON string.
pub proof fn law_json_printable(s: Seq<char>)
    ensures
        printable(json_text(s)),
    decreases s.len(),
{
    if s.len() > 0 {
        law_json_printable(s.drop_last());
        lemma_char_printable(s.last());
    }
}

proof fn lemma_first_of_char(c: char, rest: Seq<char>)
    ensures
        json_first(json_char(c) + rest) == Some((c, json_char(c).len())),
        0 < json_char(c).len(),
{
    let all = json_char(c) + rest;
    let code = c as nat;
    if c != '\\' && c != '"' && c != '\n' && c != '\r' && c != '\t' && ' ' > c {
        lemma_digit_value(code / 16);
        lemma_digit_value(code % 16);
        lemma_digit_value(0);
        let four = all.subrange(2, 6);
        assert(four =~= seq!['0', '0', text::digit_char(code / 16), text::digit_char(code % 16)]);
        assert(hex_four(four) == Some(code));
        assert(code as char == c);
    }
}

proof fn lemma_text_front(s: Seq<char>)
    requires
        s.len() > 0,
    ensures
        json_text(s) == json_char(s[0]) + json_text(s.skip(1)),
    decreases s.len(),
{
    let rest = s.skip(1);
    if s.len() == 1 {
        assert(s.drop_last() =~= Seq::empty());
        assert(rest =~= Seq::empty());
        assert(json_text(s) =~= json_char(s[0]) + json_text(rest));
    } else {
        lemma_text_front(s.drop_last());
        assert(s.drop_last().skip(1) =~= rest.drop_last());
        assert(json_text(s) =~= json_char(s[0]) + json_text(rest));
    }
}

/// A JSON string spells the text that it was made of.
pub proof fn law_json_reads_back(s: Seq<char>)
    ensures
        json_read(json_text(s)) == Some(s),
    decreases s.len(),
{
    if s.len() > 0 {
        lemma_text_front(s);
        let rest = json_text(s.skip(1));
        lemma_first_of_char(s[0], rest);
        law_json_reads_back(s.skip(1));
        let n = json_char(s[0]).len() as int;
        assert(json_text(s).skip(n) =~= rest);
        assert(seq![s[0]] + s.skip(1) =~= s);
    }
}

fn push_json_char(out: &mut String, c: char)
    ensures
        final(out)@ == old(out)@ + json_char(c),
{
    if c == '\\' {
        out.push('\\');
        out.push('\\');
    } else if c == '"' {
        out.push('\\');
        out.push('"');
    } else if c == '\n' {
        out.push('\\');
        out.push('n');
    } else if c == '\r' {
        out.push('\\');
        out.push('r');
    } else if c == '\t' {
        out.push('\\');
        out.push('t');
    } else if (c as u32) < 32 {
        out.push('\\');
        out.push('u');
        out.push('0');
        out.push('0');
        push_hex_byte(out, c as u8);
    } else {
        out.push(c);
    }
    assert(out@ =~= old(out)@ + json_char(c));
}

/// Append a text as the inside of a JSON string.
pub fn push_json(out: &mut String, s: &str)
    ensures
        final(out)@ == old(out)@ + json_text(s@),
        printable(json_text(s@)),
{
    let chars = chars_of(s);
    let mut i: usize = 0;
    assert(chars@.take(0) =~= Seq::empty());
    assert(out@ =~= old(out)@ + json_text(chars@.take(0)));
    while i < chars.len()
        invariant
            i <= chars@.len(),
            chars@ == s@,
            out@ == old(out)@ + json_text(chars@.take(i as int)),
        decreases chars@.len() - i,
    {
        let c: char = chars[i];
        assert(chars@.take(i + 1).drop_last() =~= chars@.take(i as int));
        push_json_char(out, c);
        i = i + 1;
        assert(out@ =~= old(out)@ + json_text(chars@.take(i as int)));
    }
    proof {
        assert(chars@.take(i as int) =~= s@);
        law_json_printable(s@);
    }
}

} // verus!
