//! The text of numbers: the shortest decimal that rounds to a number, plainly and in
//! exponential notation.

use vstd::prelude::*;
use crate::runtime::bignat;
use crate::runtime::bignat::Big;
use crate::runtime::number;
use crate::runtime::number::{power_of_two, truncate_to_i64, INFINITY_BITS, SIGN_BIT, UNIT};
use crate::util::text;
use crate::util::text::{decimal_len, push_decimal, push_decimal_zeros, push_signed};

verus! {

/// The bit pattern of one millionth, the least magnitude written without an exponent.
pub const MILLIONTH: u64 = 0x3EB0_C6F7_A0B5_ED8D;

/// The bit pattern of 10 to the power of 21, the least magnitude written with an exponent
/// again.
pub const SEXTILLION: u64 = 0x444B_1AE4_D6E2_EF50;
/// The bit pattern of 10 to the power of 15.
pub const QUADRILLION: u64 = 0x430C_6BF5_2634_0000;

/// The significand of a finite number, as an integer.
pub open spec fn significand(bits: u64) -> nat {
    if number::exponent_field(bits) == 0 {
        number::fraction(bits) as nat
    } else {
        UNIT as nat + number::fraction(bits) as nat
    }
}

/// How often the least positive number is doubled for a unit of the significand.
pub open spec fn doublings(bits: u64) -> nat {
    if number::exponent_field(bits) == 0 {
        0
    } else {
        (number::exponent_field(bits) - 1) as nat
    }
}

/// A number and the ends of the interval of what rounds to it, over a common denominator.
pub struct Interval {
    pub low: nat,
    pub mid: nat,
    pub high: nat,
    /// Whether the ends themselves round to the number.
    pub closed_ends: bool,
}

/// The interval of a positive finite number. The number below a power of two is nearer
/// than the one above.
pub open spec fn interval_of(bits: u64) -> Interval {
    let m = significand(bits);
    let scale = bignat::two_to(doublings(bits)) * bignat::ten_to(350);
    let below: nat = if m == UNIT && doublings(bits) > 0 {
        1
    } else {
        2
    };
    Interval {
        low: ((4 * m - below) as nat) * scale,
        mid: 4 * m * scale,
        high: (4 * m + 2) * scale,
        closed_ends: m % 2 == 0,
    }
}

/// Ten to a power over the common denominator.
pub open spec fn step(p: int) -> nat {
    bignat::ten_to((p + 350) as nat) * bignat::two_to(1076)
}

impl Interval {
    /// Whether a multiple of a step rounds to the number.
    pub open spec fn holds(self, c: nat, step: nat) -> bool {
        if self.closed_ends {
            self.low <= c * step <= self.high
        } else {
            self.low < c * step < self.high
        }
    }

    /// The least power of ten from `k` on above the number.
    pub open spec fn magnitude(self, k: int) -> int
        decreases 400 - k,
    {
        if k >= 400 || self.mid < step(k) {
            k
        } else {
            self.magnitude(k + 1)
        }
    }

    /// Of the two multiples of a step around the number, the one that rounds to it, and
    /// the nearer one where both do.
    pub open spec fn pick(self, below: nat, step: nat) -> nat {
        if self.holds(below, step) && (!self.holds(below + 1, step) || 2 * (self.mid - below
            * step) < step) {
            below
        } else {
            below + 1
        }
    }

    /// The decimal with the fewest digits, `n` or more, that rounds to a number below the
    /// power `k` of ten: its digits and the power of ten of the last.
    pub open spec fn search(self, k: int, n: nat) -> (nat, int)
        decreases 17 - n,
    {
        let s = step(k - n);
        let below = self.mid / s;
        if n >= 17 || self.holds(below, s) || self.holds(below + 1, s) {
            (self.pick(below, s), k - n)
        } else {
            self.search(k, n + 1)
        }
    }
}

/// A decimal without zeros at the end.
pub open spec fn trimmed(c: nat, p: int) -> (nat, int)
    decreases c,
{
    if c > 0 && c % 10 == 0 {
        trimmed(c / 10, p + 1)
    } else {
        (c, p)
    }
}

/// The shortest decimal that rounds to a positive finite number, and of those the nearest:
/// digits and the power of ten of the last.
pub open spec fn shortest(bits: u64) -> (nat, int) {
    let v = interval_of(bits);
    let (c, p) = v.search(v.magnitude(-330), 1);
    trimmed(c, p)
}

/// A run of zeros.
pub open spec fn zeros(n: nat) -> Seq<char> {
    Seq::new(n, |i: int| '0')
}

/// The plain text of digits times a power of ten.
pub open spec fn plain_text(c: nat, p: int) -> Seq<char> {
    if p >= 0 {
        text::decimal(c) + zeros(p as nat)
    } else {
        let scale = bignat::ten_to((-p) as nat);
        text::decimal(c / scale) + "."@ + text::pad_left(
            text::decimal(c % scale),
            (-p) as nat,
            '0',
        )
    }
}

/// The text of digits times a power of ten in exponential notation, with the sign of the
/// exponent.
pub open spec fn exponential_text(c: nat, p: int) -> Seq<char> {
    let more = (text::decimal(c).len() - 1) as nat;
    let scale = bignat::ten_to(more);
    let lead = text::decimal(c / scale);
    let tail = if more > 0 {
        "."@ + text::pad_left(text::decimal(c % scale), more, '0')
    } else {
        Seq::empty()
    };
    let e = p + more;
    lead + tail + "e"@ + (if e >= 0 {
        "+"@
    } else {
        Seq::empty()
    }) + text::signed_decimal(e)
}

/// The bit pattern without the sign.
pub open spec fn absolute(bits: u64) -> u64 {
    if number::negative(bits) {
        (bits - SIGN_BIT) as u64
    } else {
        bits
    }
}

/// A minus sign for a negative number.
pub open spec fn sign_text(bits: u64) -> Seq<char> {
    if number::negative(bits) {
        "-"@
    } else {
        Seq::empty()
    }
}

/// The text of a number as a property key has it: the shortest decimal that rounds to it,
/// in exponential notation below one millionth and from 10 to the power of 21 on.
pub open spec fn canonical_text(bits: u64) -> Seq<char> {
    let abs = absolute(bits);
    if abs > INFINITY_BITS {
        "NaN"@
    } else if abs == INFINITY_BITS {
        sign_text(bits) + "Infinity"@
    } else if abs == 0 {
        "0"@
    } else {
        let (c, p) = shortest(abs);
        sign_text(bits) + if MILLIONTH <= abs < SEXTILLION {
            plain_text(c, p)
        } else {
            exponential_text(c, p)
        }
    }
}

/// Whether a finite number is an integer.
pub open spec fn integral(bits: u64) -> bool {
    let field = number::exponent_field(bits);
    if field == 0 {
        number::fraction(bits) == 0
    } else if field < 1023 {
        false
    } else if field >= 1075 {
        true
    } else {
        significand(bits) % bignat::two_to((1075 - field) as nat) == 0
    }
}

pub(crate) proof fn lemma_ten_over_two(k: nat)
    ensures
        bignat::ten_to(10 * k) >= bignat::two_to(33 * k),
    decreases k,
{
    if k > 0 {
        let j = (k - 1) as nat;
        lemma_ten_over_two(j);
        bignat::lemma_ten_to(10 * j, 10);
        bignat::lemma_two_to(33 * j, 33);
        bignat::lemma_word_powers();
        assert(bignat::two_to(33) == 2 * bignat::two_to(32));
        assert(bignat::ten_to(10) == 10000000000) by {
            reveal_with_fuel(bignat::ten_to, 11);
        }
        let a = bignat::ten_to(10 * j);
        let b = bignat::two_to(33 * j);
        assert(a * 10000000000 >= b * 0x2_0000_0000) by (nonlinear_arith)
            requires
                a >= b,
        ;
        assert(10 * k == 10 * j + 10);
        assert(33 * k == 33 * j + 33);
    }
}

/// Decimals of a magnitude of 340 and more lie beyond the range of finite numbers.
pub proof fn lemma_power_340()
    ensures
        bignat::ten_to(340) >= bignat::two_to(1122),
        bignat::ten_to(400) >= bignat::two_to(1320),
{
    lemma_ten_over_two(34);
    lemma_ten_over_two(40);
}

pub(crate) proof fn lemma_step_next(p: int, n: nat)
    requires
        p >= -350,
    ensures
        step(p + n) == step(p) * bignat::ten_to(n),
        step(p) > 0,
{
    bignat::lemma_ten_to((p + 350) as nat, n);
    bignat::lemma_ten_to(n, 0);
    bignat::lemma_two_to(1076, 0);
    assert((p + n + 350) as nat == (p + 350) as nat + n);
    let a = bignat::ten_to((p + 350) as nat);
    let b = bignat::ten_to(n);
    let t = bignat::two_to(1076);
    assert((a * b) * t == (a * t) * b) by (nonlinear_arith);
    assert(a * t > 0) by (nonlinear_arith)
        requires
            a > 0,
            t > 0,
    ;
}

pub(crate) proof fn lemma_below_top(bits: u64)
    requires
        bits < INFINITY_BITS,
    ensures
        interval_of(bits).mid < step(400),
{
    let m = significand(bits);
    let s = doublings(bits);
    assert(s <= 2045) by {
        assert(bits / UNIT <= 2046);
    }
    lemma_power_340();
    bignat::lemma_word_powers();
    bignat::lemma_two_to(s, (2045 - s) as nat);
    bignat::lemma_two_to((2045 - s) as nat, 0);
    bignat::lemma_two_to(2045, 55);
    bignat::lemma_two_to(52, 3);
    bignat::lemma_two_to(1320, 1076);
    bignat::lemma_two_to(2100, 296);
    bignat::lemma_ten_to(400, 350);
    bignat::lemma_ten_to(350, 0);
    let a = bignat::two_to(s);
    let x = bignat::two_to((2045 - s) as nat);
    let top = bignat::two_to(2045);
    assert(a <= top) by (nonlinear_arith)
        requires
            a * x == top,
            x >= 1,
    ;
    assert(bignat::two_to(3) == 8) by {
        reveal_with_fuel(bignat::two_to, 4);
    }
    assert(bignat::two_to(55) == 0x80_0000_0000_0000) by (nonlinear_arith)
        requires
            bignat::two_to(55) == bignat::two_to(52) * bignat::two_to(3),
            bignat::two_to(52) == 0x10_0000_0000_0000,
            bignat::two_to(3) == 8,
    ;
    let t = bignat::ten_to(350);
    let big = bignat::two_to(2100);
    assert(4 * m * a < big) by (nonlinear_arith)
        requires
            a <= top,
            a > 0,
            4 * m < 0x80_0000_0000_0000,
            big == top * 0x80_0000_0000_0000,
    ;
    assert(4 * m * (a * t) == (4 * m * a) * t) by (nonlinear_arith);
    let h = bignat::ten_to(400);
    let u = bignat::two_to(1076);
    let w = bignat::two_to(1320);
    bignat::lemma_two_to(296, 0);
    bignat::lemma_two_to(1076, 0);
    let x296 = bignat::two_to(296);
    assert(w * u >= big) by (nonlinear_arith)
        requires
            w * u == big * x296,
            x296 >= 1,
    ;
    vstd::arithmetic::mul::lemma_mul_inequality(w as int, h as int, u as int);
    let y = 4 * m * a;
    vstd::arithmetic::mul::lemma_mul_strict_inequality(y as int, (h * u) as int, t as int);
    vstd::arithmetic::mul::lemma_mul_is_associative(h as int, u as int, t as int);
    vstd::arithmetic::mul::lemma_mul_is_associative(h as int, t as int, u as int);
    vstd::arithmetic::mul::lemma_mul_is_commutative(u as int, t as int);
}

/// An interval by numbers of any size.
struct Ends {
    low: Big,
    mid: Big,
    high: Big,
    closed_ends: bool,
}

impl Ends {
    spec fn interval(&self) -> Interval {
        Interval {
            low: self.low.value(),
            mid: self.mid.value(),
            high: self.high.value(),
            closed_ends: self.closed_ends,
        }
    }

    fn of(bits: u64) -> (ends: Ends)
        requires
            0 < bits < INFINITY_BITS,
        ensures
            ends.interval() == interval_of(bits),
    {
        let field: u64 = (bits / UNIT) % 2048;
        let fraction: u64 = bits % UNIT;
        let m: u64 = if field == 0 {
            fraction
        } else {
            UNIT + fraction
        };
        let s: u32 = if field == 0 {
            0
        } else {
            (field - 1) as u32
        };
        let below: u64 = if m == UNIT && s > 0 {
            1
        } else {
            2
        };
        assert(m > 0);
        let mut low = Big::from_word(4 * m - below);
        low.shift(s);
        low.scale(350);
        let mut mid = Big::from_word(4 * m);
        mid.shift(s);
        mid.scale(350);
        let mut high = Big::from_word(4 * m + 2);
        high.shift(s);
        high.scale(350);
        proof {
            let a = bignat::two_to(s as nat);
            let t = bignat::ten_to(350);
            let x = (4 * m - below) as nat;
            let y = (4 * m) as nat;
            let z = (4 * m + 2) as nat;
            assert((x * a) * t == x * (a * t)) by (nonlinear_arith);
            assert((y * a) * t == y * (a * t)) by (nonlinear_arith);
            assert((z * a) * t == z * (a * t)) by (nonlinear_arith);
        }
        Ends { low, mid, high, closed_ends: m % 2 == 0 }
    }

    fn holds(&self, c: u64, step: &Big) -> (holds: bool)
        ensures
            holds == self.interval().holds(c as nat, step.value()),
    {
        let product = times(step, c);
        if self.closed_ends {
            !product.less(&self.low) && !self.high.less(&product)
        } else {
            self.low.less(&product) && product.less(&self.high)
        }
    }

    fn pick(&self, below: u64, step: &Big) -> (c: u64)
        requires
            below < u64::MAX,
            below as nat * step.value() <= self.interval().mid,
        ensures
            c as nat == self.interval().pick(below as nat, step.value()),
    {
        if self.holds(below, step) {
            if !self.holds(below + 1, step) {
                return below;
            }
            let mut rest = self.mid.copy();
            let product = times(step, below);
            rest.subtract(&product);
            rest.double();
            if rest.less(step) {
                return below;
            }
        }
        below + 1
    }
}

fn times(big: &Big, c: u64) -> (product: Big)
    ensures
        product.value() == c as nat * big.value(),
{
    // The high and the low limb of the factor, one after the other.
    let high: u32 = (c >> 32) as u32;
    let low: u32 = (c & 0xFFFF_FFFF) as u32;
    assert(c == ((c >> 32) as u32) * 0x1_0000_0000 + ((c & 0xFFFF_FFFF) as u32)) by (bit_vector);
    let mut upper = big.copy();
    upper.mul_add(high, 0);
    upper.shift(32);
    let mut lower = big.copy();
    lower.mul_add(low, 0);
    upper.plus(&lower);
    proof {
        bignat::lemma_word_powers();
        let v = big.value();
        let h = high as nat;
        let l = low as nat;
        assert((v * h) * 0x1_0000_0000 + v * l == (h * 0x1_0000_0000 + l) * v) by (nonlinear_arith);
    }
    upper
}

fn step_of(p: i32) -> (big: Big)
    requires
        -350 <= p <= 400,
    ensures
        big.value() == step(p as int),
{
    let mut big = Big::from_word(1);
    big.scale((p + 350) as u32);
    big.shift(1076);
    proof {
        let t = bignat::ten_to((p + 350) as nat);
        assert(1 * t == t);
    }
    big
}

/// The leading digits of a number below a power of ten fit a word.
proof fn lemma_leading_digits(mid: nat, k: int, n: nat)
    requires
        1 <= n <= 17,
        -330 <= k <= 400,
        mid < step(k),
    ensures
        step(k - n) > 0,
        mid < step(k - n) * bignat::two_to(64),
        (mid / step(k - n)) * step(k - n) <= mid,
        mid / step(k - n) < 100000000000000000,
{
    let s = step(k - n);
    lemma_step_next(k - n, n);
    bignat::lemma_ten_to(n, (17 - n) as nat);
    bignat::lemma_ten_to((17 - n) as nat, 0);
    assert(bignat::ten_to(17) == 100000000000000000) by {
        reveal_with_fuel(bignat::ten_to, 18);
    }
    let a = bignat::ten_to(n);
    let b = bignat::ten_to((17 - n) as nat);
    assert(a <= 100000000000000000) by (nonlinear_arith)
        requires
            a * b == 100000000000000000,
            b >= 1,
    ;
    bignat::lemma_word_powers();
    assert(s * a <= s * 0x1_0000_0000_0000_0000) by (nonlinear_arith)
        requires
            a <= 0x1_0000_0000_0000_0000,
    ;
    vstd::arithmetic::div_mod::lemma_multiply_divide_lt(mid as int, s as int, a as int);
    vstd::arithmetic::div_mod::lemma_fundamental_div_mod(mid as int, s as int);
    vstd::arithmetic::mul::lemma_mul_is_commutative((mid / s) as int, s as int);
}

fn digits_of(ends: &Ends) -> (found: (u64, i32))
    requires
        ends.interval().mid < step(400),
    ensures
        ({
            let v = ends.interval();
            (found.0 as nat, found.1 as int) == v.search(v.magnitude(-330), 1)
        }),
        -350 <= found.1 <= 400,
{
    let ghost v = ends.interval();
    let mut k: i32 = -330;
    let mut power = step_of(-330);
    while !ends.mid.less(&power)
        invariant
            -330 <= k <= 400,
            power.value() == step(k as int),
            v == ends.interval(),
            v.mid < step(400),
            v.magnitude(-330) == v.magnitude(k as int),
        decreases 400 - k,
    {
        proof {
            lemma_step_next(k as int, 1);
            assert(bignat::ten_to(1) == 10) by {
                reveal_with_fuel(bignat::ten_to, 2);
            }
        }
        power.mul_add(10, 0);
        k = k + 1;
    }
    let mut n: i32 = 1;
    loop
        invariant
            1 <= n <= 17,
            -330 <= k <= 400,
            v == ends.interval(),
            v.mid < step(k as int),
            v.search(k as int, 1) == v.search(k as int, n as nat),
            v.magnitude(-330) == k,
        decreases 17 - n,
    {
        let s = step_of(k - n);
        proof {
            lemma_leading_digits(v.mid, k as int, n as nat);
        }
        let (below, _rest) = ends.mid.copy().divide(&s);
        if n >= 17 || ends.holds(below, &s) || ends.holds(below + 1, &s) {
            return (ends.pick(below, &s), k - n);
        }
        n = n + 1;
    }
}

fn trim(c: u64, p: i32) -> (result: (u64, i32))
    requires
        -350 <= p <= 400,
        c < 1000000000000000000,
    ensures
        (result.0 as nat, result.1 as int) == trimmed(c as nat, p as int),
        -350 <= result.1 <= 500,
{
    let mut c2: u64 = c;
    let mut p2: i32 = p;
    let mut left: i32 = 20;
    let ghost mut bound: nat = bignat::ten_to(20);
    proof {
        reveal_with_fuel(bignat::ten_to, 21);
    }
    while c2 > 0 && c2 % 10 == 0
        invariant
            trimmed(c as nat, p as int) == trimmed(c2 as nat, p2 as int),
            -350 <= p2,
            p2 + left <= 420,
            0 <= left <= 20,
            c2 < bignat::ten_to(left as nat),
        decreases c2,
    {
        proof {
            if left == 0 {
                assert(bignat::ten_to(0) == 1);
            }
            assert(bignat::ten_to(left as nat) == 10 * bignat::ten_to((left - 1) as nat));
        }
        c2 = c2 / 10;
        p2 = p2 + 1;
        left = left - 1;
    }
    (c2, p2)
}

/// Ten to a power that fits a word, and 0 for a larger one.
fn small_power(n: u32) -> (power: u64)
    ensures
        n <= 19 ==> power as nat == bignat::ten_to(n as nat) && power > 0,
        n > 19 ==> power == 0,
{
    if n > 19 {
        return 0;
    }
    let mut power: u64 = 1;
    let mut i: u32 = 0;
    while i < n
        invariant
            i <= n <= 19,
            power as nat == bignat::ten_to(i as nat),
            power > 0,
        decreases n - i,
    {
        proof {
            assert(bignat::ten_to(18) == 1000000000000000000) by {
                reveal_with_fuel(bignat::ten_to, 19);
            }
            bignat::lemma_ten_to(i as nat, (18 - i) as nat);
            bignat::lemma_ten_to((18 - i) as nat, 0);
            let a = bignat::ten_to(i as nat);
            let b = bignat::ten_to((18 - i) as nat);
            assert(a <= 1000000000000000000) by (nonlinear_arith)
                requires
                    a * b == 1000000000000000000,
                    b >= 1,
            ;
        }
        power = power * 10;
        i = i + 1;
    }
    power
}

proof fn lemma_beyond_word(c: u64, n: nat)
    requires
        n > 19,
    ensures
        c as nat / bignat::ten_to(n) == 0,
        c as nat % bignat::ten_to(n) == c,
{
    bignat::lemma_ten_to(20, (n - 20) as nat);
    bignat::lemma_ten_to((n - 20) as nat, 0);
    assert(bignat::ten_to(20) == 100000000000000000000) by {
        reveal_with_fuel(bignat::ten_to, 21);
    }
    let a = bignat::ten_to((n - 20) as nat);
    assert(100000000000000000000 * a >= 100000000000000000000) by (nonlinear_arith)
        requires
            a >= 1,
    ;
    vstd::arithmetic::div_mod::lemma_basic_div(c as int, bignat::ten_to(n) as int);
    vstd::arithmetic::div_mod::lemma_small_mod(c as nat, bignat::ten_to(n));
}

fn push_zeros(out: &mut String, n: u32)
    ensures
        final(out)@ == old(out)@ + zeros(n as nat),
{
    proof {
        reveal_strlit("0");
    }
    let mut i: u32 = 0;
    assert(old(out)@ =~= old(out)@ + zeros(0));
    while i < n
        invariant
            i <= n,
            out@ == old(out)@ + zeros(i as nat),
        decreases n - i,
    {
        proof {
            reveal_strlit("0");
        }
        out.append("0");
        i = i + 1;
        assert(out@ =~= old(out)@ + zeros(i as nat));
    }
}

fn push_plain(out: &mut String, c: u64, p: i32)
    requires
        -400 <= p <= 500,
    ensures
        final(out)@ == old(out)@ + plain_text(c as nat, p as int),
{
    if p >= 0 {
        push_decimal(out, c);
        push_zeros(out, p as u32);
        assert(out@ =~= old(out)@ + plain_text(c as nat, p as int));
    } else {
        let k: u32 = (-p) as u32;
        let scale: u64 = small_power(k);
        if scale == 0 {
            proof {
                lemma_beyond_word(c, k as nat);
            }
            push_decimal(out, 0);
            out.append(".");
            push_decimal_zeros(out, c, k as usize);
        } else {
            push_decimal(out, c / scale);
            out.append(".");
            push_decimal_zeros(out, c % scale, k as usize);
        }
        assert(out@ =~= old(out)@ + plain_text(c as nat, p as int));
    }
}

fn push_exponential(out: &mut String, c: u64, p: i32)
    requires
        -400 <= p <= 500,
    ensures
        final(out)@ == old(out)@ + exponential_text(c as nat, p as int),
{
    let len: usize = decimal_len(c);
    let more: u32 = (len - 1) as u32;
    let scale: u64 = small_power(more);
    push_decimal(out, c / scale);
    if more > 0 {
        out.append(".");
        push_decimal_zeros(out, c % scale, more as usize);
    }
    out.append("e");
    let e: i64 = p as i64 + more as i64;
    if e >= 0 {
        out.append("+");
    }
    push_signed(out, e);
    assert(out@ =~= old(out)@ + exponential_text(c as nat, p as int));
}

proof fn lemma_search_small(v: Interval, k: int, n: nat)
    requires
        v.mid < step(k),
        -330 <= k <= 400,
        1 <= n <= 17,
    ensures
        v.search(k, n).0 <= 100000000000000000,
    decreases 17 - n,
{
    lemma_leading_digits(v.mid, k, n);
    if n < 17 {
        lemma_search_small(v, k, n + 1);
    }
}

pub(crate) proof fn lemma_magnitude(v: Interval, k: int)
    requires
        v.mid < step(400),
        k <= 400,
    ensures
        v.mid < step(v.magnitude(k)),
        k <= v.magnitude(k) <= 400,
        v.magnitude(k) > k ==> v.mid >= step(v.magnitude(k) - 1),
    decreases 400 - k,
{
    if k < 400 && v.mid >= step(k) {
        lemma_magnitude(v, k + 1);
    }
}

fn shortest_digits(bits: u64) -> (found: (u64, i32))
    requires
        0 < bits < INFINITY_BITS,
    ensures
        (found.0 as nat, found.1 as int) == shortest(bits),
        -400 <= found.1 <= 500,
{
    let ends = Ends::of(bits);
    proof {
        lemma_below_top(bits);
        let v = interval_of(bits);
        lemma_magnitude(v, -330);
        lemma_search_small(v, v.magnitude(-330), 1);
    }
    let (c, p) = digits_of(&ends);
    trim(c, p)
}

fn push_sign(out: &mut String, bits: u64)
    ensures
        final(out)@ == old(out)@ + sign_text(bits),
{
    if bits >= SIGN_BIT {
        out.append("-");
    }
    assert(out@ =~= old(out)@ + sign_text(bits));
}

fn without_sign(bits: u64) -> (abs: u64)
    ensures
        abs == absolute(bits),
{
    if bits >= SIGN_BIT {
        bits - SIGN_BIT
    } else {
        bits
    }
}

/// The text of a number as a property key has it.
pub fn js_canonical_number_string(bits: u64) -> (shown: String)
    ensures
        shown@ == canonical_text(bits),
{
    let abs: u64 = without_sign(bits);
    if abs > INFINITY_BITS {
        return "NaN".to_owned();
    }
    if abs == 0 {
        return "0".to_owned();
    }
    let mut out = String::new();
    push_sign(&mut out, bits);
    if abs == INFINITY_BITS {
        out.append("Infinity");
    } else {
        let (c, p) = shortest_digits(abs);
        if MILLIONTH <= abs && abs < SEXTILLION {
            push_plain(&mut out, c, p);
        } else {
            push_exponential(&mut out, c, p);
        }
    }
    assert(out@ =~= canonical_text(bits));
    out
}

fn is_integral(bits: u64) -> (result: bool)
    ensures
        result == integral(bits),
{
    let field: u64 = (bits / UNIT) % 2048;
    let fraction: u64 = bits % UNIT;
    if field == 0 {
        fraction == 0
    } else if field < 1023 {
        false
    } else if field >= 1075 {
        true
    } else {
        (UNIT + fraction) % power_of_two(1075 - field) == 0
    }
}

/// The text of a number as a result: an integer below 10 to the power of 15 as an integer,
/// any other number plainly.
pub open spec fn display_text(bits: u64) -> Seq<char> {
    let abs = absolute(bits);
    if abs > INFINITY_BITS {
        "NaN"@
    } else if abs == INFINITY_BITS {
        sign_text(bits) + "Infinity"@
    } else if abs == 0 {
        "0"@
    } else if integral(bits) && abs < QUADRILLION {
        text::signed_decimal(number::truncated(bits) as int)
    } else {
        let (c, p) = shortest(abs);
        sign_text(bits) + plain_text(c, p)
    }
}

/// The text of a number as a result.
pub fn number_display_string(bits: u64) -> (shown: String)
    ensures
        shown@ == display_text(bits),
{
    let abs: u64 = without_sign(bits);
    if abs > INFINITY_BITS {
        return "NaN".to_owned();
    }
    if abs == 0 {
        return "0".to_owned();
    }
    let mut out = String::new();
    if abs == INFINITY_BITS {
        push_sign(&mut out, bits);
        out.append("Infinity");
    } else if is_integral(bits) && abs < QUADRILLION {
        push_signed(&mut out, truncate_to_i64(bits));
    } else {
        let (c, p) = shortest_digits(abs);
        push_sign(&mut out, bits);
        push_plain(&mut out, c, p);
    }
    assert(out@ =~= display_text(bits));
    out
}

} // verus!
