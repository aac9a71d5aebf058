//! Numbers by their IEEE 754 binary64 bit patterns: rounding to the nearest number, and
//! conversion to integers.

use vstd::prelude::*;
use crate::runtime::bignat;
use crate::runtime::bignat::Big;

verus! {

/// The bit pattern of 0.
pub const POSITIVE_ZERO: u64 = 0;

/// The bit pattern of 1.
pub const POSITIVE_ONE: u64 = 0x3FF0_0000_0000_0000;

/// The bit pattern of positive infinity.
pub const INFINITY_BITS: u64 = 0x7FF0_0000_0000_0000;

/// The bit pattern of the number that is not one.
pub const NAN_BITS: u64 = 0x7FF8_0000_0000_0000;

/// The sign bit.
pub const SIGN_BIT: u64 = 0x8000_0000_0000_0000;

/// Two to the power of the number of stored bits of the significand.
pub const UNIT: u64 = 0x10_0000_0000_0000;

/// The denominator doubled until the quotient has at most 53 bits, and how often it was.
pub open spec fn settle(n: nat, d: nat, steps: nat) -> (nat, nat)
    decreases n - d,
{
    if d == 0 || n < d * 0x20_0000_0000_0000 {
        (d, steps)
    } else {
        settle(n, 2 * d, steps + 1)
    }
}

/// The bit pattern of the number nearest to a ratio, ties to the even one. The ratio is
/// taken in units of the least positive number. The pattern is the number of doublings in
/// the exponent field plus the rounded quotient; a carry out of the significand runs into
/// the exponent.
pub open spec fn nearest_bits(num: nat, den: nat) -> u64 {
    let n = num * bignat::two_to(1074);
    let (d, steps) = settle(n, den, 0);
    let q = n / d;
    let r = n % d;
    let up = 2 * r > d || (2 * r == d && q % 2 == 1);
    let pattern = steps * UNIT as nat + q + if up {
        1nat
    } else {
        0nat
    };
    if pattern >= INFINITY_BITS {
        INFINITY_BITS
    } else {
        pattern as u64
    }
}

proof fn lemma_settle(n: nat, d: nat, steps: nat)
    requires
        d > 0,
    ensures
        settle(n, d, steps).0 > 0,
        n < settle(n, d, steps).0 * 0x20_0000_0000_0000,
        settle(n, d, steps).1 >= steps,
    decreases n - d,
{
    if n >= d * 0x20_0000_0000_0000 {
        lemma_settle(n, 2 * d, steps + 1);
    }
}

proof fn lemma_settle_steps(n: nat, d: nat, steps: nat, k: nat)
    requires
        d > 0,
        n >= d * bignat::two_to(53 + k),
    ensures
        settle(n, d, steps).1 >= steps + k + 1,
    decreases k,
{
    bignat::lemma_word_powers();
    bignat::lemma_two_to(k, 53);
    let t = bignat::two_to(k);
    assert(bignat::two_to(53 + k) == t * bignat::two_to(53));
    assert(d * (t * 0x20_0000_0000_0000) >= d * 0x20_0000_0000_0000) by (nonlinear_arith)
        requires
            t > 0,
    ;
    if k == 0 {
        lemma_settle(n, 2 * d, steps + 1);
    } else {
        let s = bignat::two_to((53 + k - 1) as nat);
        assert(bignat::two_to(53 + k) == 2 * s);
        assert((2 * d) * s == d * (2 * s)) by (nonlinear_arith);
        lemma_settle_steps(n, 2 * d, steps + 1, (k - 1) as nat);
    }
}

/// A ratio of 2 to the power of 1100 or more is nearest to infinity.
pub proof fn lemma_nearest_huge(num: nat, den: nat)
    requires
        den > 0,
        num >= den * bignat::two_to(1100),
    ensures
        nearest_bits(num, den) == INFINITY_BITS,
{
    let n = num * bignat::two_to(1074);
    bignat::lemma_two_to(1100, 1074);
    bignat::lemma_two_to(1074, 0);
    let a = bignat::two_to(1100);
    let b = bignat::two_to(1074);
    assert(num * b >= den * (a * b)) by (nonlinear_arith)
        requires
            num >= den * a,
            b > 0,
    ;
    assert(1100 + 1074 == 53 + 2121);
    lemma_settle_steps(n, den, 0, 2121);
    lemma_settle(n, den, 0);
    let steps = settle(n, den, 0).1;
    assert(steps * UNIT as nat >= 2047 * UNIT as nat) by (nonlinear_arith)
        requires
            steps >= 2047,
    ;
}

/// A ratio below the half of the least positive number is nearest to zero.
pub proof fn lemma_nearest_tiny(num: nat, den: nat)
    requires
        num * bignat::two_to(1075) < den,
    ensures
        nearest_bits(num, den) == 0,
{
    let n = num * bignat::two_to(1074);
    let t = bignat::two_to(1074);
    assert(bignat::two_to(1075) == 2 * t);
    assert(num * (2 * t) == 2 * (num * t)) by (nonlinear_arith);
    assert(n < den * 0x20_0000_0000_0000) by (nonlinear_arith)
        requires
            2 * n < den,
    ;
    vstd::arithmetic::div_mod::lemma_basic_div(n as int, den as int);
    vstd::arithmetic::div_mod::lemma_small_mod(n, den);
    assert(0 * UNIT as nat == 0);
}

/// The bit pattern of the number nearest to a ratio, ties to the even one.
pub fn nearest(num: Big, den: Big) -> (bits: u64)
    requires
        den.value() > 0,
    ensures
        bits == nearest_bits(num.value(), den.value()),
{
    let ghost start = den.value();
    let mut n = num;
    n.shift(1074);
    let mut d = den;
    let mut bound = d.copy();
    bound.shift(53);
    let mut steps: u64 = 0;
    proof {
        bignat::lemma_word_powers();
    }
    while !n.less(&bound)
        invariant
            d.value() > 0,
            bound.value() == d.value() * 0x20_0000_0000_0000,
            steps < 2047,
            n.value() == num.value() * bignat::two_to(1074),
            settle(n.value(), start, 0) == settle(n.value(), d.value(), steps as nat),
            start > 0,
            start == den.value(),
        decreases n.value() + 1 - d.value(),
    {
        proof {
            let v = d.value();
            assert((2 * v) * 0x20_0000_0000_0000 == 2 * (v * 0x20_0000_0000_0000));
        }
        d.double();
        bound.double();
        steps = steps + 1;
        if steps >= 2047 {
            proof {
                lemma_settle(n.value(), d.value(), steps as nat);
                let total = settle(n.value(), start, 0).1;
                assert(total * UNIT as nat >= 2047 * UNIT as nat) by (nonlinear_arith)
                    requires
                        total >= 2047,
                ;
            }
            return INFINITY_BITS;
        }
    }
    let ghost nv = n.value();
    let ghost dv = d.value();
    proof {
        bignat::lemma_word_powers();
        assert(dv * 0x20_0000_0000_0000 <= dv * 0x1_0000_0000_0000_0000) by (nonlinear_arith);
        assert(nv / dv < 0x20_0000_0000_0000) by {
            vstd::arithmetic::div_mod::lemma_multiply_divide_lt(
                nv as int,
                dv as int,
                0x20_0000_0000_0000,
            );
        }
    }
    let (q, r) = n.divide(&d);
    let mut twice = r;
    twice.double();
    let up: bool = d.less(&twice) || (!twice.less(&d) && q % 2 == 1);
    assert(steps * UNIT <= 2046 * UNIT) by (nonlinear_arith)
        requires
            steps <= 2046,
    ;
    let pattern: u64 = steps * UNIT + q + if up {
        1
    } else {
        0
    };
    if pattern >= INFINITY_BITS {
        INFINITY_BITS
    } else {
        pattern
    }
}

/// The exponent field of a bit pattern.
pub open spec fn exponent_field(bits: u64) -> u64 {
    (bits / UNIT) % 2048
}

/// The stored bits of the significand.
pub open spec fn fraction(bits: u64) -> u64 {
    bits % UNIT
}

/// Whether the sign bit is set.
pub open spec fn negative(bits: u64) -> bool {
    bits >= SIGN_BIT
}

/// Whether a bit pattern is not a number.
pub open spec fn is_nan(bits: u64) -> bool {
    exponent_field(bits) == 2047 && fraction(bits) != 0
}

/// The small integer that a number is equal to, if there is one.
pub open spec fn small_integer_of(bits: u64) -> Option<i32> {
    let field = exponent_field(bits);
    if field == 0 {
        if fraction(bits) == 0 {
            Some(0i32)
        } else {
            None
        }
    } else if field < 1023 || field > 1054 {
        None
    } else {
        let scale = bignat::two_to((1075 - field) as nat);
        let m = UNIT as nat + fraction(bits) as nat;
        if m % scale != 0 {
            None
        } else {
            let v = if negative(bits) {
                -((m / scale) as int)
            } else {
                (m / scale) as int
            };
            if i32::MIN <= v <= i32::MAX {
                Some(v as i32)
            } else {
                None
            }
        }
    }
}

/// Two to a small power.
pub fn power_of_two(n: u64) -> (power: u64)
    requires
        n <= 63,
    ensures
        power as nat == bignat::two_to(n as nat),
        power > 0,
{
    let mut power: u64 = 1;
    let mut i: u64 = 0;
    while i < n
        invariant
            i <= n <= 63,
            power as nat == bignat::two_to(i as nat),
            power > 0,
        decreases n - i,
    {
        proof {
            bignat::lemma_word_powers();
            bignat::lemma_two_to(i as nat, (63 - i) as nat);
            let p = bignat::two_to(i as nat);
            let q = bignat::two_to((63 - i) as nat);
            assert(q == 2 * bignat::two_to((62 - i) as nat));
            bignat::lemma_two_to((62 - i) as nat, 0);
            assert(2 * p <= 0x8000_0000_0000_0000) by (nonlinear_arith)
                requires
                    p * q == 0x8000_0000_0000_0000,
                    q >= 2,
            ;
        }
        power = power * 2;
        i = i + 1;
    }
    power
}

/// The small integer that a number is equal to, if there is one.
pub fn small_integer(bits: u64) -> (result: Option<i32>)
    ensures
        result == small_integer_of(bits),
{
    let field: u64 = (bits / UNIT) % 2048;
    let fraction: u64 = bits % UNIT;
    if field == 0 {
        return if fraction == 0 {
            Some(0)
        } else {
            None
        };
    }
    if field < 1023 || field > 1054 {
        return None;
    }
    let scale: u64 = power_of_two(1075 - field);
    let m: u64 = UNIT + fraction;
    if m % scale != 0 {
        return None;
    }
    let magnitude: u64 = m / scale;
    proof {
        vstd::arithmetic::div_mod::lemma_div_is_ordered_by_denominator(
            m as int,
            1,
            scale as int,
        );
    }
    if bits >= SIGN_BIT {
        if magnitude <= 0x8000_0000 {
            Some((-(magnitude as i64)) as i32)
        } else {
            None
        }
    } else {
        if magnitude <= 0x7FFF_FFFF {
            Some(magnitude as i32)
        } else {
            None
        }
    }
}

/// A number cut to an integer of 64 bits: towards zero, saturating, and 0 for what is not
/// a number.
pub open spec fn truncated(bits: u64) -> i64 {
    let field = exponent_field(bits);
    let m = UNIT as nat + fraction(bits) as nat;
    if is_nan(bits) || field < 1023 {
        0
    } else if field >= 1086 {
        if negative(bits) {
            i64::MIN
        } else {
            i64::MAX
        }
    } else {
        let v = if field <= 1075 {
            m / bignat::two_to((1075 - field) as nat)
        } else {
            m * bignat::two_to((field - 1075) as nat)
        };
        if negative(bits) {
            (-(v as int)) as i64
        } else {
            v as i64
        }
    }
}

/// A number cut to an integer of 64 bits: towards zero, saturating, and 0 for what is not
/// a number.
pub fn truncate_to_i64(bits: u64) -> (value: i64)
    ensures
        value == truncated(bits),
{
    let field: u64 = (bits / UNIT) % 2048;
    let fraction: u64 = bits % UNIT;
    if field < 1023 || (field == 2047 && fraction != 0) {
        return 0;
    }
    let negative: bool = bits >= SIGN_BIT;
    if field >= 1086 {
        return if negative {
            i64::MIN
        } else {
            i64::MAX
        };
    }
    let m: u64 = UNIT + fraction;
    let magnitude: u64 = if field <= 1075 {
        let scale: u64 = power_of_two(1075 - field);
        proof {
            vstd::arithmetic::div_mod::lemma_div_is_ordered_by_denominator(
                m as int,
                1,
                scale as int,
            );
        }
        m / scale
    } else {
        let scale: u64 = power_of_two(field - 1075);
        proof {
            let k = (field - 1075) as nat;
            bignat::lemma_word_powers();
            bignat::lemma_two_to(k, (10 - k) as nat);
            let p = bignat::two_to(k);
            let q = bignat::two_to((10 - k) as nat);
            assert(bignat::two_to(10) == 1024) by {
                reveal_with_fuel(bignat::two_to, 11);
            }
            bignat::lemma_two_to((10 - k) as nat, 0);
            assert(p <= 1024) by (nonlinear_arith)
                requires
                    p * q == 1024,
                    q >= 1,
            ;
            assert(m * p <= 0x7FFF_FFFF_FFFF_FFFF) by (nonlinear_arith)
                requires
                    m <= 0x1F_FFFF_FFFF_FFFF,
                    p <= 1024,
            ;
        }
        m * scale
    };
    if negative {
        -(magnitude as i64)
    } else {
        magnitude as i64
    }
}

} // verus!
