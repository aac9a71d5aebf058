//! That the shortest decimal of a number is read back as the number.

use vstd::arithmetic::div_mod;
use vstd::prelude::*;
use crate::runtime::bignat;
use crate::runtime::number;
use crate::runtime::number::{INFINITY_BITS, UNIT};
use crate::runtime::number_literal;
use crate::runtime::number_text;
use crate::runtime::number_text::Interval;
use crate::util::text;

verus! {

/// How often a denominator is doubled: until the quotient has at most 53 bits.
proof fn lemma_settle_exact(n: nat, d: nat, steps: nat, e: nat)
    requires
        d > 0,
        n < (d * bignat::two_to(e)) * 0x20_0000_0000_0000,
        e == 0 || n >= (d * bignat::two_to((e - 1) as nat)) * 0x20_0000_0000_0000,
    ensures
        number::settle(n, d, steps) == (d * bignat::two_to(e), steps + e),
    decreases e,
{
    if e == 0 {
        assert(d * 1 == d);
    } else {
        let k = (e - 1) as nat;
        let t = bignat::two_to(k);
        bignat::lemma_two_to(k, 0);
        assert(d * t >= d) by (nonlinear_arith)
            requires
                t >= 1,
        ;
        assert((2 * d) * t == d * (2 * t)) by (nonlinear_arith);
        if k > 0 {
            let u = bignat::two_to((k - 1) as nat);
            assert((2 * d) * u == d * (2 * u)) by (nonlinear_arith);
        }
        lemma_settle_exact(n, 2 * d, steps + 1, k);
    }
}

/// A ratio that lies in the interval of a number is nearest to the number: the pattern has
/// the doublings in its exponent field, and the significand.
proof fn lemma_pattern(num: nat, den: nat, m: nat, e: nat, below: nat)
    requires
        den > 0,
        1 <= m < 0x20_0000_0000_0000,
        m >= UNIT || e == 0,
        below == if m == UNIT && e > 0 {
            1nat
        } else {
            2nat
        },
        ({
            let n = num * bignat::two_to(1074);
            let d = den * bignat::two_to(e);
            if m % 2 == 0 {
                (4 * m - below) * d <= 4 * n <= (4 * m + 2) * d
            } else {
                (4 * m - below) * d < 4 * n < (4 * m + 2) * d
            }
        }),
        e * UNIT + m < INFINITY_BITS,
    ensures
        number::nearest_bits(num, den) == e * UNIT + m,
{
    let n = num * bignat::two_to(1074);
    let t = bignat::two_to(e);
    let d = den * t;
    bignat::lemma_two_to(e, 0);
    assert(d > 0) by (nonlinear_arith)
        requires
            den > 0,
            t > 0,
            d == den * t,
    ;
    let md = m * d;
    assert((4 * m - below) * d == 4 * md - below * d) by (nonlinear_arith)
        requires
            md == m * d,
    ;
    assert((4 * m + 2) * d == 4 * md + 2 * d) by (nonlinear_arith)
        requires
            md == m * d,
    ;
    assert(below * d <= 2 * d) by (nonlinear_arith)
        requires
            below <= 2,
    ;
    assert(md + d <= 0x20_0000_0000_0000 * d) by (nonlinear_arith)
        requires
            md == m * d,
            m + 1 <= 0x20_0000_0000_0000,
    ;
    let half = if e > 0 {
        den * bignat::two_to((e - 1) as nat)
    } else {
        0
    };
    if e > 0 {
        let h = bignat::two_to((e - 1) as nat);
        assert(den * (2 * h) == 2 * (den * h)) by (nonlinear_arith);
        assert(d == 2 * half);
    }
    if e == 0 || n >= half * 0x20_0000_0000_0000 {
        lemma_settle_exact(n, den, 0, e);
        if n >= md {
            div_mod::lemma_fundamental_div_mod_converse(n as int, d as int, m as int, n - md);
        } else {
            if below == 1 {
                assert(md == 0x10_0000_0000_0000 * d);
                assert(false);
            }
            assert((m - 1) * d == md - d) by (nonlinear_arith)
                requires
                    md == m * d,
            ;
            div_mod::lemma_fundamental_div_mod_converse(
                n as int,
                d as int,
                m - 1,
                n - (md - d),
            );
        }
        assert(e * UNIT as nat == e * UNIT);
    } else {
        if m != UNIT {
            assert(md >= 0x10_0000_0000_0001 * d) by (nonlinear_arith)
                requires
                    md == m * d,
                    m >= 0x10_0000_0000_0001,
            ;
            assert(false);
        }
        assert(md == 0x10_0000_0000_0000 * d);
        assert(below * d == d);
        let k = (e - 1) as nat;
        bignat::lemma_two_to(k, 0);
        let h = bignat::two_to(k);
        assert(half > 0) by (nonlinear_arith)
            requires
                half == den * h,
                den > 0,
                h > 0,
        ;
        if k > 0 {
            let g = bignat::two_to((k - 1) as nat);
            assert(den * (2 * g) == 2 * (den * g)) by (nonlinear_arith);
        }
        lemma_settle_exact(n, den, 0, k);
        div_mod::lemma_fundamental_div_mod_converse(
            n as int,
            half as int,
            0x1F_FFFF_FFFF_FFFF,
            n - 0x1F_FFFF_FFFF_FFFF * half,
        );
        assert(k * UNIT as nat + 2 * UNIT == e * UNIT + UNIT) by (nonlinear_arith)
            requires
                k == e - 1,
        ;
    }
}

/// A bit pattern is made of the doublings and the significand.
proof fn lemma_parts(bits: u64)
    requires
        0 < bits < INFINITY_BITS,
    ensures
        ({
            let m = number_text::significand(bits);
            let e = number_text::doublings(bits);
            &&& 1 <= m < 0x20_0000_0000_0000
            &&& m >= UNIT || e == 0
            &&& e * UNIT + m == bits
        }),
{
    let field = bits / UNIT;
    assert(field < 2047);
    assert(field % 2048 == field);
    assert(bits == field * UNIT + bits % UNIT);
    if field > 0 {
        assert((field - 1) * UNIT + UNIT == field * UNIT) by (nonlinear_arith);
    }
}

/// A decimal in the interval of a number is read as the number.
proof fn lemma_holds_reads(bits: u64, c: nat, p: int)
    requires
        0 < bits < INFINITY_BITS,
        p >= -350,
        number_text::interval_of(bits).holds(c, number_text::step(p)),
    ensures
        number_literal::decimal_bits(c, p) == bits,
{
    let v = number_text::interval_of(bits);
    let m = number_text::significand(bits);
    let e = number_text::doublings(bits);
    lemma_parts(bits);
    let t = bignat::ten_to(350);
    let u = bignat::two_to(1074);
    let pow = bignat::two_to(e);
    let scale = pow * t;
    bignat::lemma_ten_to(350, 0);
    assert(bignat::two_to(1076) == 4 * u) by {
        assert(bignat::two_to(1075) == 2 * u);
    }
    let below: nat = if m == UNIT && e > 0 {
        1
    } else {
        2
    };
    let (num, den) = if p >= 0 {
        (c * bignat::ten_to(p as nat), 1nat)
    } else {
        (c, bignat::ten_to((-p) as nat))
    };
    let n = num * u;
    let d = den * pow;
    let s = number_text::step(p);
    let tp = bignat::ten_to((p + 350) as nat);
    let x = c * s;
    if p >= 0 {
        bignat::lemma_ten_to(p as nat, 350);
        let a = bignat::ten_to(p as nat);
        assert(c * ((a * t) * (4 * u)) * 1 == 4 * t * ((c * a) * u)) by (nonlinear_arith);
    } else {
        bignat::lemma_ten_to((p + 350) as nat, (-p) as nat);
        bignat::lemma_ten_to((-p) as nat, 0);
        assert((p + 350) as nat + (-p) as nat == 350);
        let b = den;
        assert(c * (tp * (4 * u)) * b == 4 * (tp * b) * (c * u)) by (nonlinear_arith);
    }
    assert(x * den == 4 * t * n);
    let lo = (4 * m - below) as nat;
    let hi = 4 * m + 2;
    lemma_scaled(lo, pow, t, den, n, x);
    lemma_scaled(hi, pow, t, den, n, x);
    lemma_pattern(num, den, m, e, below);
}

/// Multiples of a unit compare as their quotients by a common factor do.
proof fn lemma_scaled(k: nat, pow: nat, t: nat, den: nat, n: nat, x: nat)
    requires
        t > 0,
        den > 0,
        x * den == 4 * t * n,
    ensures
        k * (pow * t) <= x ==> k * (den * pow) <= 4 * n,
        k * (pow * t) < x ==> k * (den * pow) < 4 * n,
        k * (pow * t) >= x ==> k * (den * pow) >= 4 * n,
        k * (pow * t) > x ==> k * (den * pow) > 4 * n,
{
    let a = k * (pow * t);
    let b = k * (den * pow);
    assert(a * den == b * t) by (nonlinear_arith)
        requires
            a == k * (pow * t),
            b == k * (den * pow),
    ;
    assert(4 * t * n == (4 * n) * t) by (nonlinear_arith);
    let w = 4 * n;
    assert(a <= x ==> b <= w) by (nonlinear_arith)
        requires
            a * den == b * t,
            x * den == w * t,
            den > 0,
            t > 0,
    ;
    assert(a < x ==> b < w) by (nonlinear_arith)
        requires
            a * den == b * t,
            x * den == w * t,
            den > 0,
            t > 0,
    ;
    assert(a >= x ==> b >= w) by (nonlinear_arith)
        requires
            a * den == b * t,
            x * den == w * t,
            den > 0,
            t > 0,
    ;
    assert(a > x ==> b > w) by (nonlinear_arith)
        requires
            a * den == b * t,
            x * den == w * t,
            den > 0,
            t > 0,
    ;
}

/// Seventeen digits are enough: one of the two decimals around a number rounds to it.
proof fn lemma_seventeen_digits(bits: u64, k: int)
    requires
        0 < bits < INFINITY_BITS,
        -330 < k <= 400,
        number_text::step(k - 1) <= number_text::interval_of(bits).mid,
    ensures
        ({
            let v = number_text::interval_of(bits);
            let s = number_text::step(k - 17);
            v.holds(v.mid / s, s) || v.holds(v.mid / s + 1, s)
        }),
{
    let v = number_text::interval_of(bits);
    let s = number_text::step(k - 17);
    let m = number_text::significand(bits);
    let e = number_text::doublings(bits);
    lemma_parts(bits);
    number_text::lemma_step_next(k - 17, 16);
    assert(bignat::ten_to(16) == 10000000000000000) by {
        reveal_with_fuel(bignat::ten_to, 17);
    }
    let scale = bignat::two_to(e) * bignat::ten_to(350);
    let below: nat = if m == UNIT && e > 0 {
        1
    } else {
        2
    };
    let ms = m * scale;
    assert(4 * m * scale == 4 * ms) by (nonlinear_arith)
        requires
            ms == m * scale,
    ;
    assert(((4 * m - below) as nat) * scale == 4 * ms - below * scale) by (nonlinear_arith)
        requires
            ms == m * scale,
            below <= 4 * m,
    ;
    assert((4 * m + 2) * scale == 4 * ms + 2 * scale) by (nonlinear_arith)
        requires
            ms == m * scale,
    ;
    assert(v.mid >= s * 10000000000000000);
    if below == 1 {
        assert(ms == 0x10_0000_0000_0000 * scale);
    } else {
        if 4 * scale <= s {
            assert(4 * ms <= m * s) by (nonlinear_arith)
                requires
                    ms == m * scale,
                    4 * scale <= s,
            ;
            assert(m * s <= 0x20_0000_0000_0000 * s) by (nonlinear_arith)
                requires
                    m <= 0x20_0000_0000_0000,
            ;
            assert(false);
        }
    }
    let c = v.mid / s;
    let r = v.mid % s;
    div_mod::lemma_fundamental_div_mod(v.mid as int, s as int);
    vstd::arithmetic::mul::lemma_mul_is_commutative(s as int, c as int);
    assert((c + 1) * s == c * s + s) by (nonlinear_arith);
    assert(c * s == v.mid - r);
    if r < below * scale {
        assert(v.holds(c, s));
    } else {
        assert(below * scale + 2 * scale > s);
        assert(v.holds(c + 1, s));
    }
}

/// What the search for digits finds rounds to the number.
proof fn lemma_search_holds(bits: u64, k: int, n: nat)
    requires
        0 < bits < INFINITY_BITS,
        -330 < k <= 400,
        1 <= n <= 17,
        number_text::step(k - 1) <= number_text::interval_of(bits).mid,
    ensures
        ({
            let v = number_text::interval_of(bits);
            let (c, p) = v.search(k, n);
            p >= -350 && v.holds(c, number_text::step(p))
        }),
    decreases 17 - n,
{
    let v = number_text::interval_of(bits);
    let s = number_text::step(k - n);
    let c = v.mid / s;
    if n == 17 {
        lemma_seventeen_digits(bits, k);
    } else if !v.holds(c, s) && !v.holds(c + 1, s) {
        lemma_search_holds(bits, k, n + 1);
    }
}

/// Dropping the zeros at the end of a decimal keeps its value.
proof fn lemma_trimmed(c: nat, p: int)
    requires
        p >= -350,
    ensures
        ({
            let (d, q) = number_text::trimmed(c, p);
            q >= p && d * number_text::step(q) == c * number_text::step(p)
        }),
    decreases c,
{
    if c > 0 && c % 10 == 0 {
        lemma_trimmed(c / 10, p + 1);
        number_text::lemma_step_next(p, 1);
        assert(bignat::ten_to(1) == 10) by {
            reveal_with_fuel(bignat::ten_to, 2);
        }
        let s = number_text::step(p);
        let d = c / 10;
        assert(d * (s * 10) == c * s) by (nonlinear_arith)
            requires
                c == d * 10,
        ;
    }
}

/// The least positive number lies above all decimals of a magnitude below -330.
proof fn lemma_above_bottom(bits: u64)
    requires
        0 < bits < INFINITY_BITS,
    ensures
        number_text::step(-330) <= number_text::interval_of(bits).mid,
{
    let m = number_text::significand(bits);
    let e = number_text::doublings(bits);
    lemma_parts(bits);
    number_text::lemma_ten_over_two(33);
    bignat::lemma_ten_to(20, 330);
    bignat::lemma_ten_to(20, 0);
    bignat::lemma_ten_to(350, 0);
    bignat::lemma_two_to(e, 0);
    bignat::lemma_two_to(1076, 13);
    bignat::lemma_two_to(13, 0);
    let a = bignat::ten_to(20);
    let b = bignat::ten_to(330);
    let u = bignat::two_to(1076);
    let w = bignat::two_to(13);
    let pow = bignat::two_to(e);
    assert(u <= b) by (nonlinear_arith)
        requires
            u * w <= b,
            w >= 1,
    ;
    assert(a * u <= a * b) by (nonlinear_arith)
        requires
            u <= b,
    ;
    let t = a * b;
    assert(t <= 4 * m * (pow * t)) by (nonlinear_arith)
        requires
            m >= 1,
            pow >= 1,
    ;
}

/// The shortest decimal of a positive finite number is read back as the number.
pub proof fn law_shortest_reads_back(bits: u64)
    requires
        0 < bits < INFINITY_BITS,
    ensures
        ({
            let (c, p) = number_text::shortest(bits);
            number_literal::decimal_bits(c, p) == bits
        }),
{
    let v = number_text::interval_of(bits);
    number_text::lemma_below_top(bits);
    number_text::lemma_magnitude(v, -330);
    lemma_above_bottom(bits);
    let k = v.magnitude(-330);
    lemma_search_holds(bits, k, 1);
    let (c, p) = v.search(k, 1);
    lemma_trimmed(c, p);
    let (d, q) = number_text::trimmed(c, p);
    lemma_holds_reads(bits, d, q);
}

/// Whether a text holds decimal digits alone.
spec fn digits_only(s: Seq<char>) -> bool {
    forall|i: int| 0 <= i < s.len() ==> '0' <= #[trigger] s[i] <= '9'
}

/// Whether a text holds characters of a decimal numeral alone.
spec fn numeral_chars(s: Seq<char>) -> bool {
    forall|i: int|
        0 <= i < s.len() ==> numeral_char(#[trigger] s[i])
}

/// Whether a character can stand in a decimal numeral.
spec fn numeral_char(c: char) -> bool {
    '0' <= c <= '9' || c == '.' || c == 'e' || c == '+' || c == '-'
}

proof fn lemma_decimal_reads(n: nat)
    ensures
        text::decimal(n).len() >= 1,
        digits_only(text::decimal(n)),
        number_literal::numeral_value(text::decimal(n), 10) == n,
    decreases n,
{
    let s = text::decimal(n);
    if n < 10 {
        assert(s.drop_last() =~= Seq::empty());
        assert(number_literal::numeral_value(s.drop_last(), 10) == 0);
    } else {
        lemma_decimal_reads(n / 10);
        assert(s.drop_last() =~= text::decimal(n / 10));
    }
}

/// A number below a power of ten has at most so many digits, and one not below has more.
proof fn lemma_decimal_width(n: nat, w: nat)
    requires
        w >= 1,
    ensures
        n < bignat::ten_to(w) ==> text::decimal(n).len() <= w,
        n >= bignat::ten_to(w) ==> text::decimal(n).len() > w,
    decreases w,
{
    reveal_with_fuel(bignat::ten_to, 2);
    if n < 10 {
        if w > 1 {
            bignat::lemma_ten_to((w - 1) as nat, 0);
        }
    } else if w == 1 {
        lemma_decimal_reads(n / 10);
    } else {
        lemma_decimal_width(n / 10, (w - 1) as nat);
        let t = bignat::ten_to((w - 1) as nat);
        assert(bignat::ten_to(w) == 10 * t);
    }
}

proof fn lemma_numeral_joined(a: Seq<char>, b: Seq<char>)
    ensures
        number_literal::numeral_value(a + b, 10) == number_literal::numeral_value(a, 10)
            * bignat::ten_to(b.len()) + number_literal::numeral_value(b, 10),
    decreases b.len(),
{
    if b.len() == 0 {
        assert(a + b =~= a);
        assert(number_literal::numeral_value(a, 10) * 1 == number_literal::numeral_value(a, 10));
    } else {
        let c = b.drop_last();
        lemma_numeral_joined(a, c);
        assert((a + b).drop_last() =~= a + c);
        assert((a + b).last() == b.last());
        let x = number_literal::numeral_value(a, 10);
        let t = bignat::ten_to(c.len());
        let y = number_literal::numeral_value(c, 10);
        assert(bignat::ten_to(b.len()) == 10 * t);
        assert((x * t + y) * 10 == x * (10 * t) + y * 10) by (nonlinear_arith);
    }
}

proof fn lemma_zeros_read(n: nat)
    ensures
        digits_only(number_text::zeros(n)),
        number_literal::numeral_value(number_text::zeros(n), 10) == 0,
    decreases n,
{
    if n > 0 {
        lemma_zeros_read((n - 1) as nat);
        assert(number_text::zeros(n).drop_last() =~= number_text::zeros((n - 1) as nat));
    }
}

/// A number filled up with zeros on the left reads as the number.
proof fn lemma_padded_reads(n: nat, w: nat)
    requires
        w >= 1,
        n < bignat::ten_to(w),
    ensures
        ({
            let s = text::pad_left(text::decimal(n), w, '0');
            &&& s.len() == w
            &&& digits_only(s)
            &&& number_literal::numeral_value(s, 10) == n
        }),
{
    let d = text::decimal(n);
    lemma_decimal_reads(n);
    lemma_decimal_width(n, w);
    if d.len() < w {
        let more = (w - d.len()) as nat;
        lemma_zeros_read(more);
        lemma_numeral_joined(number_text::zeros(more), d);
        assert(text::pad_left(d, w, '0') =~= number_text::zeros(more) + d);
        assert(0 * bignat::ten_to(d.len()) == 0);
    }
}

/// A run of digits ends in front of the first character that is no digit.
proof fn lemma_run_ends(s: Seq<char>, from: int, end: int)
    requires
        0 <= from <= end <= s.len(),
        forall|i: int| from <= i < end ==> '0' <= #[trigger] s[i] <= '9',
        end < s.len() ==> number_literal::digit_value(s[end]) >= 10,
    ensures
        number_literal::run_end(s, from) == end,
    decreases end - from,
{
    if from < end {
        lemma_run_ends(s, from + 1, end);
    }
}

/// A numeral with digits, perhaps a point with more of them, and perhaps an exponent, is
/// taken apart as it was put together.
proof fn lemma_numeral_parts(
    lead: Seq<char>,
    tail: Seq<char>,
    pointed: bool,
    power: Option<int>,
    s: Seq<char>,
)
    requires
        lead.len() >= 1,
        digits_only(lead),
        digits_only(tail),
        !pointed ==> tail.len() == 0,
        ({
            let head = if pointed {
                lead + seq!['.'] + tail
            } else {
                lead
            };
            s == match power {
                None => head,
                Some(e) => head + seq!['e'] + (if e >= 0 {
                    seq!['+']
                } else {
                    Seq::empty()
                }) + text::signed_decimal(e),
            }
        }),
    ensures
        number_literal::numeral_of(s) == Some(
            number_literal::Numeral {
                digits: lead + tail,
                behind: tail.len(),
                exponent: match power {
                    Some(e) => e,
                    None => 0,
                },
            },
        ),
        numeral_chars(s),
        s.len() >= 1,
        '0' <= s[0] <= '9',
{
    let n = lead.len() as int;
    assert(forall|i: int| 0 <= i < n ==> s[i] == lead[i]);
    assert(n < s.len() ==> s[n] == '.' || s[n] == 'e');
    lemma_run_ends(s, 0, n);
    let from = if pointed {
        n + 1
    } else {
        n
    };
    let end = from + tail.len();
    assert(pointed ==> s[n] == '.');
    assert(forall|i: int| from <= i < end ==> s[i] == tail[i - from]);
    assert(end < s.len() ==> s[end] == 'e');
    lemma_run_ends(s, from, end);
    assert(s.subrange(0, n) =~= lead);
    assert(s.subrange(from, end) =~= tail);
    match power {
        None => {
            assert(s.len() == end);
        },
        Some(e) => {
            let size = if e >= 0 {
                e as nat
            } else {
                (-e) as nat
            };
            let d = text::decimal(size);
            lemma_decimal_reads(size);
            assert(s.len() == end + 2 + d.len());
            assert(s[end] == 'e');
            assert(s[end + 1] == if e >= 0 {
                '+'
            } else {
                '-'
            });
            assert(s.subrange(end + 2, s.len() as int) =~= d);
            assert forall|i: int| end + 2 <= i < s.len() implies '0' <= #[trigger] s[i] <= '9' by {
                assert(s[i] == d[i - end - 2]);
            }
            lemma_run_ends(s, end + 2, s.len() as int);
        },
    }
    assert forall|i: int| 0 <= i < s.len() implies numeral_char(#[trigger] s[i]) by {
        if i < n {
            assert(s[i] == lead[i]);
        } else if from <= i < end {
            assert(s[i] == tail[i - from]);
        }
    }
}

/// The plain text of a decimal is taken apart into the decimal.
proof fn lemma_plain_reads(c: nat, p: int)
    ensures
        ({
            let s = number_text::plain_text(c, p);
            &&& number_literal::numeral_of(s) is Some
            &&& ({
                let n = number_literal::numeral_of(s)->0;
                number_literal::decimal_bits(
                    number_literal::numeral_value(n.digits, 10),
                    n.exponent - n.behind,
                ) == number_literal::decimal_bits(c, p)
            })
            &&& numeral_chars(s)
            &&& s.len() >= 1
            &&& '0' <= s[0] <= '9'
        }),
{
    let s = number_text::plain_text(c, p);
    if p >= 0 {
        let d = text::decimal(c);
        let z = number_text::zeros(p as nat);
        lemma_decimal_reads(c);
        lemma_zeros_read(p as nat);
        lemma_numeral_joined(d, z);
        assert(z.len() == p);
        lemma_numeral_parts(d + z, Seq::empty(), false, None, s);
        assert(d + z + Seq::<char>::empty() =~= d + z);
        let v = c * bignat::ten_to(p as nat);
        assert(bignat::ten_to(0) == 1);
        assert(v * 1 == v);
    } else {
        let w = (-p) as nat;
        let scale = bignat::ten_to(w);
        bignat::lemma_ten_to(w, 0);
        let lead = text::decimal(c / scale);
        let tail = text::pad_left(text::decimal(c % scale), w, '0');
        lemma_decimal_reads(c / scale);
        lemma_padded_reads(c % scale, w);
        reveal_strlit(".");
        assert("."@ =~= seq!['.']);
        lemma_numeral_parts(lead, tail, true, None, s);
        lemma_numeral_joined(lead, tail);
        div_mod::lemma_fundamental_div_mod(c as int, scale as int);
        vstd::arithmetic::mul::lemma_mul_is_commutative((c / scale) as int, scale as int);
    }
}

/// The text of a decimal with an exponent is taken apart into the decimal.
proof fn lemma_exponential_reads(c: nat, p: int)
    requires
        c > 0,
    ensures
        ({
            let s = number_text::exponential_text(c, p);
            &&& number_literal::numeral_of(s) is Some
            &&& ({
                let n = number_literal::numeral_of(s)->0;
                number_literal::decimal_bits(
                    number_literal::numeral_value(n.digits, 10),
                    n.exponent - n.behind,
                ) == number_literal::decimal_bits(c, p)
            })
            &&& numeral_chars(s)
            &&& s.len() >= 1
            &&& '0' <= s[0] <= '9'
        }),
{
    let s = number_text::exponential_text(c, p);
    lemma_decimal_reads(c);
    let more = (text::decimal(c).len() - 1) as nat;
    let scale = bignat::ten_to(more);
    bignat::lemma_ten_to(more, 0);
    let lead = text::decimal(c / scale);
    lemma_decimal_reads(c / scale);
    let e = p + more;
    reveal_strlit("e");
    reveal_strlit("+");
    reveal_strlit(".");
    assert("e"@ =~= seq!['e']);
    assert("+"@ =~= seq!['+']);
    assert("."@ =~= seq!['.']);
    div_mod::lemma_fundamental_div_mod(c as int, scale as int);
    vstd::arithmetic::mul::lemma_mul_is_commutative((c / scale) as int, scale as int);
    if more > 0 {
        let tail = text::pad_left(text::decimal(c % scale), more, '0');
        lemma_padded_reads(c % scale, more);
        assert(lead + ("."@ + tail) =~= lead + seq!['.'] + tail);
        lemma_numeral_parts(lead, tail, true, Some(e), s);
        lemma_numeral_joined(lead, tail);
        assert(number_literal::numeral_value(lead + tail, 10) == c);
    } else {
        assert(scale == 1);
        assert(c / 1 == c);
        assert(lead + Seq::<char>::empty() =~= lead);
        lemma_numeral_parts(lead, Seq::empty(), false, Some(e), s);
    }
}

proof fn lemma_no_underscores(s: Seq<char>)
    requires
        forall|i: int| 0 <= i < s.len() ==> #[trigger] s[i] != '_',
    ensures
        number_literal::without_underscores(s) == s,
    decreases s.len(),
{
    if s.len() > 0 {
        lemma_no_underscores(s.drop_last());
        assert(s.drop_last().push(s.last()) =~= s);
    }
}

/// A literal made of the sign and the text of a numeral denotes what the numeral does.
proof fn lemma_signed_reads(s: Seq<char>, t: Seq<char>, negative: bool)
    requires
        numeral_chars(t),
        t.len() >= 1,
        '0' <= t[0] <= '9',
        number_literal::numeral_of(t) is Some,
        s == if negative {
            seq!['-'] + t
        } else {
            t
        },
    ensures
        ({
            let n = number_literal::numeral_of(t)->0;
            number_literal::literal_bits(s) == number_literal::signed_bits(
                negative,
                number_literal::decimal_bits(
                    number_literal::numeral_value(n.digits, 10),
                    n.exponent - n.behind,
                ),
            )
        }),
{
    assert forall|i: int| 0 <= i < s.len() implies numeral_char(#[trigger] s[i]) by {
        if negative && i > 0 {
            assert(s[i] == t[i - 1]);
        }
    }
    lemma_no_underscores(s);
    if s.len() >= 2 {
        assert(numeral_char(s[1]));
    }
    reveal_strlit("inf");
    reveal_strlit("infinity");
    reveal_strlit("nan");
    if negative {
        assert(s.skip(1) =~= t);
    }
    assert(number_literal::lower(t[0]) == t[0]);
}

/// The text of a number, finite and not zero, is read back as the number.
pub proof fn law_text_reads_back(bits: u64)
    requires
        0 < number_text::absolute(bits) < INFINITY_BITS,
    ensures
        number_literal::literal_bits(number_text::canonical_text(bits)) == bits,
{
    let abs = number_text::absolute(bits);
    let (c, p) = number_text::shortest(abs);
    law_shortest_reads_back(abs);
    reveal_strlit("-");
    assert("-"@ =~= seq!['-']);
    let s = number_text::canonical_text(bits);
    let t = if number_text::MILLIONTH <= abs < number_text::SEXTILLION {
        number_text::plain_text(c, p)
    } else {
        number_text::exponential_text(c, p)
    };
    lemma_plain_reads(c, p);
    lemma_shortest_positive(abs);
    lemma_exponential_reads(c, p);
    assert(Seq::<char>::empty() + t =~= t);
    lemma_signed_reads(s, t, number::negative(bits));
}

/// The shortest decimal of a number is not zero.
proof fn lemma_shortest_positive(bits: u64)
    requires
        0 < bits < INFINITY_BITS,
    ensures
        number_text::shortest(bits).0 > 0,
{
    law_shortest_reads_back(bits);
    let (c, p) = number_text::shortest(bits);
    if c == 0 {
        lemma_zero_reads(p);
    }
}

/// Zero times a power of ten reads as zero.
proof fn lemma_zero_reads(p: int)
    ensures
        number_literal::decimal_bits(0, p) == 0,
{
    let den = if p >= 0 {
        1nat
    } else {
        bignat::ten_to((-p) as nat)
    };
    if p < 0 {
        bignat::lemma_ten_to((-p) as nat, 0);
    } else {
        assert(0 * bignat::ten_to(p as nat) == 0);
    }
    assert(0 * bignat::two_to(1075) == 0);
    number::lemma_nearest_tiny(0, den);
}

/// A decimal of fewer digits than the shortest one does not read as the number: no multiple
/// of the next larger power of ten around the number rounds to it.
pub proof fn law_search_is_shortest(v: Interval, k: int, n: nat)
    requires
        1 <= n <= 17,
    ensures
        ({
            let p = v.search(k, n).1;
            forall|j: nat| #![trigger number_text::step(k - j)]
                n <= j < k - p ==> {
                    let s = number_text::step(k - j);
                    !v.holds(v.mid / s, s) && !v.holds(v.mid / s + 1, s)
                }
        }),
    decreases 17 - n,
{
    let s = number_text::step(k - n);
    if n < 17 && !v.holds(v.mid / s, s) && !v.holds(v.mid / s + 1, s) {
        law_search_is_shortest(v, k, n + 1);
    }
}

} // verus!
