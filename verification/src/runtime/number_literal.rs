//! The numbers that literals denote.

use vstd::prelude::*;
use crate::runtime::bignat;
use crate::runtime::bignat::Big;
use crate::runtime::number;
use crate::runtime::number::{nearest, INFINITY_BITS, NAN_BITS, SIGN_BIT};
use crate::runtime::number_text;
use crate::util::text::chars_of;

verus! {

/// The value of a digit in bases up to sixteen; sixteen for what is no digit.
pub open spec fn digit_value(c: char) -> nat {
    if '0' <= c <= '9' {
        (c as nat - '0' as nat) as nat
    } else if 'a' <= c <= 'f' {
        (c as nat - 'a' as nat + 10) as nat
    } else if 'A' <= c <= 'F' {
        (c as nat - 'A' as nat + 10) as nat
    } else {
        16
    }
}

/// The value of a digit in bases up to sixteen; sixteen for what is no digit.
pub fn value_of_digit(c: char) -> (value: u32)
    ensures
        value as nat == digit_value(c),
        value <= 16,
{
    if '0' <= c && c <= '9' {
        c as u32 - '0' as u32
    } else if 'a' <= c && c <= 'f' {
        c as u32 - 'a' as u32 + 10
    } else if 'A' <= c && c <= 'F' {
        c as u32 - 'A' as u32 + 10
    } else {
        16
    }
}

/// The number that digits spell in a base.
pub open spec fn numeral_value(digits: Seq<char>, base: nat) -> nat
    decreases digits.len(),
{
    if digits.len() == 0 {
        0
    } else {
        numeral_value(digits.drop_last(), base) * base + digit_value(digits.last())
    }
}

/// The end of the run of decimal digits from a position on.
pub open spec fn run_end(s: Seq<char>, i: int) -> int
    decreases s.len() - i,
{
    if 0 <= i < s.len() && digit_value(s[i]) < 10 {
        run_end(s, i + 1)
    } else {
        i
    }
}

/// A text without its underscores.
pub open spec fn without_underscores(s: Seq<char>) -> Seq<char>
    decreases s.len(),
{
    if s.len() == 0 {
        s
    } else if s.last() == '_' {
        without_underscores(s.drop_last())
    } else {
        without_underscores(s.drop_last()).push(s.last())
    }
}

/// A bit pattern with a sign.
pub open spec fn signed_bits(negative: bool, bits: u64) -> u64 {
    if negative {
        (bits + SIGN_BIT) as u64
    } else {
        bits
    }
}

/// The parts of a decimal numeral: digits with the point left out, how many of them stand
/// behind the point, and the exponent.
pub struct Numeral {
    pub digits: Seq<char>,
    pub behind: nat,
    pub exponent: int,
}

/// The exponent that stands at `i` and takes up the rest of the text; none for no
/// exponent at all is zero.
pub open spec fn exponent_at(s: Seq<char>, i: int) -> Option<int> {
    if i >= s.len() {
        Some(0int)
    } else if s[i] == 'e' || s[i] == 'E' {
        let signed = i + 1 < s.len() && (s[i + 1] == '-' || s[i + 1] == '+');
        let from = if signed {
            i + 2
        } else {
            i + 1
        };
        if from < s.len() && run_end(s, from) == s.len() {
            let v = numeral_value(s.subrange(from, s.len() as int), 10) as int;
            Some(
                if signed && s[i + 1] == '-' {
                    -v
                } else {
                    v
                },
            )
        } else {
            None
        }
    } else {
        None
    }
}

/// The decimal numeral that a text is: digits, a point with digits, or both, and an
/// exponent.
pub open spec fn numeral_of(s: Seq<char>) -> Option<Numeral> {
    let whole = run_end(s, 0);
    let point = whole < s.len() && s[whole] == '.';
    let from = if point {
        whole + 1
    } else {
        whole
    };
    let end = run_end(s, from);
    let digits = s.subrange(0, whole) + s.subrange(from, end);
    if digits.len() == 0 {
        None
    } else {
        match exponent_at(s, end) {
            Some(exponent) => Some(Numeral { digits, behind: (end - from) as nat, exponent }),
            None => None,
        }
    }
}

/// The number nearest to digits times a power of ten.
pub open spec fn decimal_bits(digits: nat, power: int) -> u64 {
    if power >= 0 {
        number::nearest_bits(digits * bignat::ten_to(power as nat), 1)
    } else {
        number::nearest_bits(digits, bignat::ten_to((-power) as nat))
    }
}

/// A letter in lower case.
pub open spec fn lower(c: char) -> char {
    if 'A' <= c <= 'Z' {
        (c as u32 + 32) as char
    } else {
        c
    }
}

/// Whether a text is a word, in whatever case.
pub open spec fn same_word(s: Seq<char>, word: Seq<char>) -> bool {
    s.len() == word.len() && forall|i: int| 0 <= i < s.len() ==> lower(#[trigger] s[i]) == word[i]
}

/// The number that a decimal text denotes; the number that is not one for a malformed
/// text.
pub open spec fn decimal_text_bits(s: Seq<char>) -> u64 {
    let signed = s.len() > 0 && (s[0] == '-' || s[0] == '+');
    let negative = signed && s[0] == '-';
    let rest = if signed {
        s.skip(1)
    } else {
        s
    };
    if same_word(rest, "inf"@) || same_word(rest, "infinity"@) {
        signed_bits(negative, INFINITY_BITS)
    } else if same_word(rest, "nan"@) {
        signed_bits(negative, NAN_BITS)
    } else {
        match numeral_of(rest) {
            Some(n) => signed_bits(
                negative,
                decimal_bits(numeral_value(n.digits, 10), n.exponent - n.behind),
            ),
            None => NAN_BITS,
        }
    }
}

/// Whether a text holds digits of a base alone.
pub open spec fn all_digits(s: Seq<char>, base: nat) -> bool {
    forall|i: int| 0 <= i < s.len() ==> digit_value(#[trigger] s[i]) < base
}

/// The integer of 64 bits that a text denotes in a base, if it denotes one.
pub open spec fn radix_integer(s: Seq<char>, base: nat) -> Option<int> {
    let signed = s.len() > 0 && (s[0] == '-' || s[0] == '+');
    let digits = if signed {
        s.skip(1)
    } else {
        s
    };
    let v = numeral_value(digits, base) as int;
    let value = if signed && s[0] == '-' {
        -v
    } else {
        v
    };
    if digits.len() == 0 || !all_digits(digits, base) || value < i64::MIN || value > i64::MAX {
        None
    } else {
        Some(value)
    }
}

/// The number nearest to an integer.
pub open spec fn integer_bits(v: int) -> u64 {
    if v < 0 {
        signed_bits(true, number::nearest_bits((-v) as nat, 1))
    } else {
        number::nearest_bits(v as nat, 1)
    }
}

/// The base that a prefix names.
pub open spec fn prefix_base(s: Seq<char>) -> Option<nat> {
    if s.len() >= 2 && s[0] == '0' {
        if s[1] == 'x' || s[1] == 'X' {
            Some(16nat)
        } else if s[1] == 'o' || s[1] == 'O' {
            Some(8nat)
        } else if s[1] == 'b' || s[1] == 'B' {
            Some(2nat)
        } else {
            None
        }
    } else {
        None
    }
}

/// The number that a literal denotes. Behind a base prefix, what is no integer of 64 bits
/// denotes zero.
pub open spec fn literal_bits(s: Seq<char>) -> u64 {
    match prefix_base(s) {
        Some(base) => match radix_integer(without_underscores(s.skip(2)), base) {
            Some(v) => integer_bits(v),
            None => 0,
        },
        None => decimal_text_bits(without_underscores(s)),
    }
}

fn drop_underscores(s: &Vec<char>, from: usize) -> (rest: Vec<char>)
    requires
        from <= s@.len(),
    ensures
        rest@ == without_underscores(s@.skip(from as int)),
{
    let mut rest: Vec<char> = Vec::new();
    let mut i: usize = from;
    let ghost all = s@.skip(from as int);
    assert(all.take(0).len() == 0);
    while i < s.len()
        invariant
            from <= i <= s@.len(),
            all == s@.skip(from as int),
            rest@ == without_underscores(all.take(i - from)),
        decreases s@.len() - i,
    {
        assert(all.take(i + 1 - from).drop_last() =~= all.take(i - from));
        assert(all.take(i + 1 - from).last() == s@[i as int]);
        if s[i] != '_' {
            rest.push(s[i]);
        }
        i = i + 1;
    }
    assert(all.take(i - from) =~= all);
    rest
}

fn find_run_end(s: &Vec<char>, from: usize) -> (end: usize)
    requires
        from <= s@.len(),
    ensures
        end as int == run_end(s@, from as int),
        from <= end <= s@.len(),
{
    let mut i: usize = from;
    while i < s.len() && value_of_digit(s[i]) < 10
        invariant
            from <= i <= s@.len(),
            run_end(s@, from as int) == run_end(s@, i as int),
        decreases s@.len() - i,
    {
        i = i + 1;
    }
    i
}

proof fn lemma_run(s: Seq<char>, from: int)
    requires
        0 <= from <= s.len(),
    ensures
        from <= run_end(s, from) <= s.len(),
        forall|i: int| from <= i < run_end(s, from) ==> digit_value(#[trigger] s[i]) < 10,
    decreases s.len() - from,
{
    if from < s.len() && digit_value(s[from]) < 10 {
        lemma_run(s, from + 1);
    }
}

fn is_word(s: &Vec<char>, from: usize, word: &str) -> (same: bool)
    requires
        from <= s@.len(),
    ensures
        same == same_word(s@.skip(from as int), word@),
{
    let target = chars_of(word);
    let ghost rest = s@.skip(from as int);
    if s.len() - from != target.len() {
        return false;
    }
    let mut i: usize = 0;
    while i < target.len()
        invariant
            i <= target@.len(),
            from + target@.len() == s@.len(),
            rest == s@.skip(from as int),
            target@ == word@,
            forall|j: int| 0 <= j < i ==> lower(#[trigger] rest[j]) == word@[j],
        decreases target@.len() - i,
    {
        assert(s@.len() == s.len());
        let c: char = s[from + i];
        assert(rest[i as int] == c);
        let low: char = to_lower(c);
        if low != target[i] {
            return false;
        }
        i = i + 1;
    }
    true
}

fn to_lower(c: char) -> (low: char)
    ensures
        low == lower(c),
{
    if 'A' <= c && c <= 'Z' {
        let code: u8 = c as u8 + 32;
        code as char
    } else {
        c
    }
}

/// The value of a run of decimal digits, cut off at a bound that no length of a text
/// reaches.
fn bounded_value(s: &Vec<char>, from: usize) -> (value: u128)
    requires
        from <= s@.len(),
        forall|i: int| from <= i < s@.len() ==> digit_value(#[trigger] s@[i]) < 10,
    ensures
        ({
            let v = numeral_value(s@.subrange(from as int, s@.len() as int), 10);
            if v < 0x1_0000_0000_0000_0000_0000_0000 {
                value as nat == v
            } else {
                value == 0x1_0000_0000_0000_0000_0000_0000
            }
        }),
{
    let mut value: u128 = 0;
    let mut i: usize = from;
    assert(s@.subrange(from as int, from as int).len() == 0);
    while i < s.len()
        invariant
            from <= i <= s@.len(),
            forall|j: int| from <= j < s@.len() ==> digit_value(#[trigger] s@[j]) < 10,
            ({
                let v = numeral_value(s@.subrange(from as int, i as int), 10);
                if v < 0x1_0000_0000_0000_0000_0000_0000 {
                    value as nat == v
                } else {
                    value == 0x1_0000_0000_0000_0000_0000_0000
                }
            }),
        decreases s@.len() - i,
    {
        let ghost now = s@.subrange(from as int, i + 1);
        assert(now.drop_last() =~= s@.subrange(from as int, i as int));
        assert(now.last() == s@[i as int]);
        let d: u32 = value_of_digit(s[i]);
        value = value * 10 + d as u128;
        if value >= 0x1_0000_0000_0000_0000_0000_0000 {
            value = 0x1_0000_0000_0000_0000_0000_0000;
        }
        i = i + 1;
    }
    value
}

/// The exponent at a position, cut off at the same bound.
fn read_exponent(s: &Vec<char>, i: usize) -> (exponent: Option<i128>)
    requires
        i <= s@.len(),
    ensures
        match exponent_at(s@, i as int) {
            None => exponent is None,
            Some(e) => exponent is Some && (if -0x1_0000_0000_0000_0000_0000_0000 < e
                < 0x1_0000_0000_0000_0000_0000_0000 {
                exponent->0 == e
            } else if e > 0 {
                exponent->0 == 0x1_0000_0000_0000_0000_0000_0000
            } else {
                exponent->0 == -0x1_0000_0000_0000_0000_0000_0000
            }),
        },
{
    if i >= s.len() {
        return Some(0);
    }
    if s[i] != 'e' && s[i] != 'E' {
        return None;
    }
    assert(s@.len() == s.len());
    let signed: bool = i + 1 < s.len() && (s[i + 1] == '-' || s[i + 1] == '+');
    let from: usize = if signed {
        i + 2
    } else {
        i + 1
    };
    if from >= s.len() {
        return None;
    }
    let end: usize = find_run_end(s, from);
    if end != s.len() {
        return None;
    }
    proof {
        lemma_run(s@, from as int);
    }
    let value: u128 = bounded_value(s, from);
    if signed && s[i + 1] == '-' {
        Some(-(value as i128))
    } else {
        Some(value as i128)
    }
}

proof fn lemma_numeral_bounds(digits: Seq<char>)
    requires
        forall|i: int| 0 <= i < digits.len() ==> digit_value(#[trigger] digits[i]) < 10,
    ensures
        numeral_value(digits, 10) < bignat::ten_to(digits.len()),
    decreases digits.len(),
{
    if digits.len() > 0 {
        let rest = digits.drop_last();
        assert forall|i: int| 0 <= i < rest.len() implies digit_value(#[trigger] rest[i]) < 10 by {
            assert(rest[i] == digits[i]);
        }
        lemma_numeral_bounds(rest);
        assert(digit_value(digits[digits.len() - 1]) < 10);
    }
}

/// The digits of a numeral by number, and how many they are without leading zeros.
fn read_digits(
    s: &Vec<char>,
    whole: usize,
    from: usize,
    end: usize,
    Ghost(digits): Ghost<Seq<char>>,
) -> (read: (Big, usize))
    requires
        whole <= from <= end <= s@.len(),
        digits == s@.subrange(0, whole as int) + s@.subrange(from as int, end as int),
        forall|i: int| 0 <= i < digits.len() ==> digit_value(#[trigger] digits[i]) < 10,
    ensures
        read.0.value() == numeral_value(digits, 10),
        numeral_value(digits, 10) < bignat::ten_to(read.1 as nat),
        numeral_value(digits, 10) > 0 ==> read.1 > 0 && numeral_value(digits, 10)
            >= bignat::ten_to((read.1 - 1) as nat),
        numeral_value(digits, 10) == 0 ==> read.1 == 0,
{
    let mut big = Big::zero();
    let mut count: usize = 0;
    let mut i: usize = 0;
    let total: usize = whole + (end - from);
    assert(digits.take(0).len() == 0);
    while i < total
        invariant
            i <= total == digits.len(),
            count <= i,
            whole <= from <= end <= s@.len(),
            total == whole + (end - from),
            digits == s@.subrange(0, whole as int) + s@.subrange(from as int, end as int),
            forall|j: int| 0 <= j < digits.len() ==> digit_value(#[trigger] digits[j]) < 10,
            big.value() == numeral_value(digits.take(i as int), 10),
            big.value() < bignat::ten_to(count as nat),
            big.value() > 0 ==> count > 0 && big.value() >= bignat::ten_to((count - 1) as nat),
            big.value() == 0 ==> count == 0,
        decreases total - i,
    {
        let c: char = if i < whole {
            s[i]
        } else {
            s[from + (i - whole)]
        };
        assert(c == digits[i as int]);
        let d: u32 = value_of_digit(c);
        proof {
            let now = digits.take(i + 1);
            assert(now.drop_last() =~= digits.take(i as int));
            assert(now.last() == c);
        }
        let zero: bool = big.is_zero();
        big.mul_add(10, d);
        if !zero || d > 0 {
            count = count + 1;
        }
        i = i + 1;
    }
    assert(digits.take(total as int) =~= digits);
    (big, count)
}

proof fn lemma_scale_huge(v: nat, count: nat, power: int)
    requires
        count > 0,
        v >= bignat::ten_to((count - 1) as nat),
        count + power > 341,
    ensures
        decimal_bits(v, power) == INFINITY_BITS,
{
    number_text::lemma_power_340();
    bignat::lemma_two_to(1100, 22);
    bignat::lemma_two_to(22, 0);
    let limit = bignat::two_to(1100);
    let x = bignat::two_to(22);
    let h = bignat::ten_to(340);
    assert(h >= limit) by (nonlinear_arith)
        requires
            h >= limit * x,
            x >= 1,
    ;
    if power >= 0 {
        let p = power as nat;
        let t = bignat::ten_to(p);
        let extra = (count - 1 + power - 340) as nat;
        bignat::lemma_ten_to((count - 1) as nat, p);
        bignat::lemma_ten_to(340, extra);
        bignat::lemma_ten_to(extra, 0);
        bignat::lemma_ten_to(p, 0);
        assert(340 + extra == (count - 1) as nat + p);
        let a = bignat::ten_to((count - 1) as nat);
        let e = bignat::ten_to(extra);
        vstd::arithmetic::mul::lemma_mul_inequality(a as int, v as int, t as int);
        assert(h * e >= h) by (nonlinear_arith)
            requires
                e >= 1,
        ;
        assert(v * t >= 1 * limit);
        number::lemma_nearest_huge(v * t, 1);
    } else {
        let p = (-power) as nat;
        let t = bignat::ten_to(p);
        let extra = (count - 1 + power - 340) as nat;
        bignat::lemma_ten_to(340, extra);
        bignat::lemma_ten_to(340 + extra, p);
        bignat::lemma_ten_to(extra, 0);
        bignat::lemma_ten_to(p, 0);
        assert(340 + extra + p == (count - 1) as nat);
        let e = bignat::ten_to(extra);
        assert(h * e >= h) by (nonlinear_arith)
            requires
                e >= 1,
        ;
        vstd::arithmetic::mul::lemma_mul_inequality(limit as int, (h * e) as int, t as int);
        vstd::arithmetic::mul::lemma_mul_is_commutative(limit as int, t as int);
        number::lemma_nearest_huge(v, t);
    }
}

proof fn lemma_scale_tiny(v: nat, count: nat, power: int)
    requires
        v < bignat::ten_to(count),
        count + power < -340,
    ensures
        decimal_bits(v, power) == 0,
{
    number_text::lemma_power_340();
    let p = (-power) as nat;
    let extra = (-power - count - 340) as nat;
    bignat::lemma_ten_to(count, 340);
    bignat::lemma_ten_to(count + 340, extra);
    bignat::lemma_ten_to(extra, 0);
    bignat::lemma_two_to(1075, 47);
    bignat::lemma_two_to(47, 0);
    assert(count + 340 + extra == p);
    let c = bignat::ten_to(count);
    let h = bignat::ten_to(340);
    let e = bignat::ten_to(extra);
    let half = bignat::two_to(1075);
    let x = bignat::two_to(47);
    assert(half <= h) by (nonlinear_arith)
        requires
            h >= half * x,
            x >= 1,
    ;
    bignat::lemma_two_to(1075, 0);
    bignat::lemma_ten_to(340, 0);
    vstd::arithmetic::mul::lemma_mul_strict_inequality(v as int, c as int, half as int);
    vstd::arithmetic::mul::lemma_mul_inequality(half as int, h as int, c as int);
    vstd::arithmetic::mul::lemma_mul_is_commutative(half as int, c as int);
    vstd::arithmetic::mul::lemma_mul_is_commutative(h as int, c as int);
    assert((c * h) * e >= c * h) by (nonlinear_arith)
        requires
            e >= 1,
            c * h >= 0,
    ;
    number::lemma_nearest_tiny(v, bignat::ten_to(p));
}

proof fn lemma_zero_digits(power: int)
    ensures
        decimal_bits(0, power) == 0,
{
    if power >= 0 {
        let t = bignat::ten_to(power as nat);
        assert(0 * t == 0) by (nonlinear_arith);
        let h = bignat::two_to(1075);
        assert(0 * h == 0) by (nonlinear_arith);
        number::lemma_nearest_tiny(0, 1);
    } else {
        bignat::lemma_ten_to((-power) as nat, 0);
        let h = bignat::two_to(1075);
        assert(0 * h == 0) by (nonlinear_arith);
        number::lemma_nearest_tiny(0, bignat::ten_to((-power) as nat));
    }
}

/// The number nearest to digits times a power of ten.
fn scaled(big: Big, count: usize, power: i128, Ghost(exact): Ghost<int>) -> (bits: u64)
    requires
        big.value() < bignat::ten_to(count as nat),
        big.value() > 0 ==> count > 0 && big.value() >= bignat::ten_to((count - 1) as nat),
        big.value() == 0 ==> count == 0,
        -0x2_0000_0000_0000_0000_0000_0000 < power < 0x2_0000_0000_0000_0000_0000_0000,
        power == exact || (power > 0x8000_0000_0000_0000_0000_0000 && exact
            > 0x8000_0000_0000_0000_0000_0000) || (power < -0x8000_0000_0000_0000_0000_0000
            && exact < -0x8000_0000_0000_0000_0000_0000),
    ensures
        bits == decimal_bits(big.value(), exact),
{
    if big.is_zero() {
        proof {
            lemma_zero_digits(exact);
        }
        return 0;
    }
    let magnitude: i128 = count as i128 + power;
    if magnitude > 341 {
        proof {
            lemma_scale_huge(big.value(), count as nat, exact);
        }
        return INFINITY_BITS;
    }
    if magnitude < -340 {
        proof {
            lemma_scale_tiny(big.value(), count as nat, exact);
        }
        return 0;
    }
    assert(power == exact);
    if power >= 0 {
        let mut num = big;
        num.scale(power as u32);
        nearest(num, Big::from_word(1))
    } else {
        scaled_down(big, (-power) as u128)
    }
}

/// The number nearest to digits over a power of ten.
fn scaled_down(big: Big, power: u128) -> (bits: u64)
    ensures
        bits == number::nearest_bits(big.value(), bignat::ten_to(power as nat)),
{
    let mut den = Big::from_word(1);
    let mut left: u128 = power;
    while left > 0
        invariant
            left <= power,
            den.value() == bignat::ten_to((power - left) as nat),
        decreases left,
    {
        den.mul_add(10, 0);
        left = left - 1;
    }
    proof {
        bignat::lemma_ten_to(power as nat, 0);
    }
    nearest(big, den)
}

fn with_sign(negative: bool, bits: u64) -> (signed: u64)
    requires
        bits < SIGN_BIT,
    ensures
        signed == signed_bits(negative, bits),
{
    if negative {
        bits + SIGN_BIT
    } else {
        bits
    }
}

/// The number that a decimal numeral without sign denotes, if the text is one.
fn parse_numeral(s: Vec<char>) -> (bits: Option<u64>)
    ensures
        match numeral_of(s@) {
            Some(n) => bits == Some(
                decimal_bits(numeral_value(n.digits, 10), n.exponent - n.behind),
            ),
            None => bits is None,
        },
        bits is Some ==> bits->0 <= INFINITY_BITS,
{
    let whole: usize = find_run_end(&s, 0);
    let point: bool = whole < s.len() && s[whole] == '.';
    let from: usize = if point {
        whole + 1
    } else {
        whole
    };
    let end: usize = find_run_end(&s, from);
    let ghost digits = s@.subrange(0, whole as int) + s@.subrange(from as int, end as int);
    if whole + (end - from) == 0 {
        return None;
    }
    match read_exponent(&s, end) {
        None => None,
        Some(exponent) => {
            proof {
                lemma_run(s@, 0);
                lemma_run(s@, from as int);
                assert forall|i: int| 0 <= i < digits.len() implies digit_value(
                    #[trigger] digits[i],
                ) < 10 by {
                    if i < whole {
                        assert(digits[i] == s@[i]);
                    } else {
                        assert(digits[i] == s@[from + (i - whole)]);
                    }
                }
            }
            let (big, count) = read_digits(&s, whole, from, end, Ghost(digits));
            let behind: usize = end - from;
            let ghost exact = exponent_at(s@, end as int)->0 - behind;
            let bits: u64 = scaled(big, count, exponent - behind as i128, Ghost(exact));
            proof {
                lemma_nearest_range(numeral_value(digits, 10), exact);
            }
            Some(bits)
        },
    }
}

fn parse_decimal(all: Vec<char>) -> (bits: u64)
    ensures
        bits == decimal_text_bits(all@),
{
    let signed: bool = all.len() > 0 && (all[0] == '-' || all[0] == '+');
    let negative: bool = signed && all[0] == '-';
    let start: usize = if signed {
        1
    } else {
        0
    };
    assert(all@.skip(0) =~= all@);
    if is_word(&all, start, "inf") || is_word(&all, start, "infinity") {
        return with_sign(negative, INFINITY_BITS);
    }
    if is_word(&all, start, "nan") {
        return with_sign(negative, NAN_BITS);
    }
    match parse_numeral(tail(&all, start)) {
        None => NAN_BITS,
        Some(bits) => with_sign(negative, bits),
    }
}

proof fn lemma_nearest_range(digits: nat, power: int)
    ensures
        decimal_bits(digits, power) <= INFINITY_BITS,
{
}

fn tail(all: &Vec<char>, from: usize) -> (rest: Vec<char>)
    requires
        from <= all@.len(),
    ensures
        rest@ == all@.skip(from as int),
{
    let mut rest: Vec<char> = Vec::new();
    let mut i: usize = from;
    assert(rest@ =~= all@.subrange(from as int, from as int));
    while i < all.len()
        invariant
            from <= i <= all@.len(),
            rest@ == all@.subrange(from as int, i as int),
        decreases all@.len() - i,
    {
        rest.push(all[i]);
        i = i + 1;
        assert(rest@ =~= all@.subrange(from as int, i as int));
    }
    assert(rest@ =~= all@.skip(from as int));
    rest
}

fn parse_radix(all: Vec<char>, base: u32) -> (value: Option<i64>)
    requires
        2 <= base <= 16,
    ensures
        match radix_integer(all@, base as nat) {
            Some(v) => value is Some && value->0 == v,
            None => value is None,
        },
{
    let signed: bool = all.len() > 0 && (all[0] == '-' || all[0] == '+');
    let start: usize = if signed {
        1
    } else {
        0
    };
    let ghost digits = if signed {
        all@.skip(1)
    } else {
        all@
    };
    if all.len() == start {
        return None;
    }
    let mut value: u128 = 0;
    let mut i: usize = start;
    assert(digits.take(0).len() == 0);
    while i < all.len()
        invariant
            start <= i <= all@.len(),
            signed == (all@.len() > 0 && (all@[0] == '-' || all@[0] == '+')),
            start == if signed {
                1int
            } else {
                0int
            },
            digits == if signed {
                all@.skip(1)
            } else {
                all@
            },
            2 <= base <= 16,
            forall|j: int| 0 <= j < i - start ==> digit_value(#[trigger] digits[j]) < base,
            ({
                let v = numeral_value(digits.take(i - start), base as nat);
                if v < 0x1_0000_0000_0000_0000 {
                    value as nat == v
                } else {
                    value == 0x1_0000_0000_0000_0000
                }
            }),
        decreases all@.len() - i,
    {
        let d: u32 = value_of_digit(all[i]);
        assert(digits[i - start] == all@[i as int]);
        if d >= base {
            assert(!all_digits(digits, base as nat));
            return None;
        }
        proof {
            let now = digits.take(i + 1 - start);
            assert(now.drop_last() =~= digits.take(i - start));
            assert(now.last() == all@[i as int]);
            let v = numeral_value(digits.take(i - start), base as nat);
            let b = base as nat;
            assert(v >= 0x1_0000_0000_0000_0000 ==> v * b >= 0x1_0000_0000_0000_0000)
                by (nonlinear_arith)
                requires
                    b >= 2,
            ;
            let x = value as nat;
            assert(x * b <= 0x10_0000_0000_0000_0000) by (nonlinear_arith)
                requires
                    x <= 0x1_0000_0000_0000_0000,
                    b <= 16,
            ;
            assert(x == 0x1_0000_0000_0000_0000 ==> x * b >= 0x1_0000_0000_0000_0000)
                by (nonlinear_arith)
                requires
                    b >= 2,
            ;
        }
        value = value * base as u128 + d as u128;
        if value >= 0x1_0000_0000_0000_0000 {
            value = 0x1_0000_0000_0000_0000;
        }
        i = i + 1;
    }
    assert(digits.take(i - start) =~= digits);
    assert(all_digits(digits, base as nat));
    if signed && all[0] == '-' {
        if value <= 0x8000_0000_0000_0000 {
            Some((-(value as i128)) as i64)
        } else {
            None
        }
    } else {
        if value <= 0x7FFF_FFFF_FFFF_FFFF {
            Some(value as i64)
        } else {
            None
        }
    }
}

fn integer_to_bits(v: i64) -> (bits: u64)
    ensures
        bits == integer_bits(v as int),
{
    if v < 0 {
        let magnitude: u64 = (-(v as i128)) as u64;
        with_sign(true, nearest(Big::from_word(magnitude), Big::from_word(1)))
    } else {
        nearest(Big::from_word(v as u64), Big::from_word(1))
    }
}

/// The number that a literal denotes.
pub fn parse_number_text(text: &str) -> (bits: u64)
    ensures
        bits == literal_bits(text@),
{
    let all = chars_of(text);
    assert(all@.skip(0) =~= all@);
    let mut base: u32 = 0;
    if all.len() >= 2 && all[0] == '0' {
        if all[1] == 'x' || all[1] == 'X' {
            base = 16;
        } else if all[1] == 'o' || all[1] == 'O' {
            base = 8;
        } else if all[1] == 'b' || all[1] == 'B' {
            base = 2;
        }
    }
    if base > 0 {
        let digits = drop_underscores(&all, 2);
        match parse_radix(digits, base) {
            Some(v) => integer_to_bits(v),
            None => 0,
        }
    } else {
        parse_decimal(drop_underscores(&all, 0))
    }
}

} // verus!
