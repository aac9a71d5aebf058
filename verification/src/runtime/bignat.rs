//! Natural numbers of any size.

use vstd::prelude::*;

verus! {

/// The number that a limb counts for at its position.
pub const LIMB_BASE: u64 = 0x1_0000_0000;

/// The number that limbs spell, least significant first.
pub open spec fn limbs_value(limbs: Seq<u32>) -> nat
    decreases limbs.len(),
{
    if limbs.len() == 0 {
        0
    } else {
        limbs[0] as nat + LIMB_BASE as nat * limbs_value(limbs.drop_first())
    }
}

/// The base to the power of a number of limbs.
pub open spec fn limb_power(n: nat) -> nat
    decreases n,
{
    if n == 0 {
        1
    } else {
        LIMB_BASE as nat * limb_power((n - 1) as nat)
    }
}

proof fn lemma_value_push(limbs: Seq<u32>, top: u32)
    ensures
        limbs_value(limbs.push(top)) == limbs_value(limbs) + limb_power(limbs.len()) * top as nat,
    decreases limbs.len(),
{
    if limbs.len() == 0 {
        assert(limbs.push(top).drop_first() =~= Seq::<u32>::empty());
        assert(limbs.push(top)[0] == top);
        assert(limb_power(0) == 1);
        assert(limbs_value(limbs.push(top).drop_first()) == 0);
        assert(limb_power(0) * top as nat == top as nat) by (nonlinear_arith)
            requires
                limb_power(0) == 1,
        ;
    } else {
        let rest = limbs.drop_first();
        assert(limbs.push(top).drop_first() =~= rest.push(top));
        lemma_value_push(rest, top);
        let b = LIMB_BASE as nat;
        let p = limb_power(rest.len());
        let t = top as nat;
        let v = limbs_value(rest);
        assert(b * (v + p * t) == b * v + (b * p) * t) by (nonlinear_arith);
        assert(limb_power(limbs.len()) == b * p);
    }
}

proof fn lemma_value_take(limbs: Seq<u32>, n: nat)
    requires
        n < limbs.len(),
    ensures
        limbs_value(limbs.take(n as int + 1)) == limbs_value(limbs.take(n as int)) + limb_power(n)
            * limbs[n as int] as nat,
{
    assert(limbs.take(n as int + 1) =~= limbs.take(n as int).push(limbs[n as int]));
    lemma_value_push(limbs.take(n as int), limbs[n as int]);
}

proof fn lemma_value_bound(limbs: Seq<u32>)
    ensures
        limbs_value(limbs) < limb_power(limbs.len()),
    decreases limbs.len(),
{
    if limbs.len() > 0 {
        lemma_value_bound(limbs.drop_first());
        let b = LIMB_BASE as nat;
        let v = limbs_value(limbs.drop_first());
        let p = limb_power((limbs.len() - 1) as nat);
        let l = limbs[0] as nat;
        assert(l + b * v < b * p) by (nonlinear_arith)
            requires
                l < b,
                v < p,
        ;
    }
}

/// A natural number of any size.
pub struct Big {
    limbs: Vec<u32>,
}

impl Big {
    /// The number.
    pub closed spec fn value(&self) -> nat {
        limbs_value(self.limbs@)
    }

    /// Zero.
    pub fn zero() -> (big: Self)
        ensures
            big.value() == 0,
    {
        Big { limbs: Vec::new() }
    }

    /// A number that fits a word.
    pub fn from_word(word: u64) -> (big: Self)
        ensures
            big.value() == word,
    {
        let mut big = Big::zero();
        big.mul_add(0, (word >> 32) as u32);
        let high: u32 = (word >> 32) as u32;
        let low: u32 = (word & 0xFFFF_FFFF) as u32;
        big.shift_limb(low);
        assert(word == ((word >> 32) as u32) * 0x1_0000_0000 + ((word & 0xFFFF_FFFF) as u32))
            by (bit_vector);
        assert(0 * 0 + high as nat == high as nat);
        big
    }

    /// A copy.
    pub fn copy(&self) -> (big: Self)
        ensures
            big.value() == self.value(),
    {
        let mut limbs: Vec<u32> = Vec::new();
        let mut i: usize = 0;
        while i < self.limbs.len()
            invariant
                i <= self.limbs@.len(),
                limbs@ == self.limbs@.take(i as int),
            decreases self.limbs@.len() - i,
        {
            limbs.push(self.limbs[i]);
            i = i + 1;
            assert(self.limbs@.take(i as int) =~= self.limbs@.take(i - 1).push(self.limbs@[i - 1]));
        }
        assert(self.limbs@.take(i as int) =~= self.limbs@);
        Big { limbs }
    }

    /// Multiply by the base and add a limb.
    fn shift_limb(&mut self, low: u32)
        ensures
            final(self).value() == LIMB_BASE as nat * old(self).value() + low as nat,
    {
        let mut limbs: Vec<u32> = Vec::new();
        limbs.push(low);
        let mut i: usize = 0;
        while i < self.limbs.len()
            invariant
                i <= self.limbs@.len(),
                limbs@ == seq![low] + self.limbs@.take(i as int),
            decreases self.limbs@.len() - i,
        {
            limbs.push(self.limbs[i]);
            i = i + 1;
            assert(limbs@ =~= seq![low] + self.limbs@.take(i as int));
        }
        assert(limbs@.drop_first() =~= self.limbs@);
        self.limbs = limbs;
    }

    /// Multiply by a limb and add another.
    pub fn mul_add(&mut self, factor: u32, addend: u32)
        ensures
            final(self).value() == old(self).value() * factor as nat + addend as nat,
    {
        let ghost start = self.limbs@;
        let n: usize = self.limbs.len();
        let mut carry: u64 = addend as u64;
        let mut i: usize = 0;
        assert(limbs_value(start.take(0)) == 0);
        assert(limb_power(0) == 1);
        assert(0 + 1 * carry == 0 * factor as nat + addend as nat);
        while i < n
            invariant
                i <= n == start.len() == self.limbs@.len(),
                carry < LIMB_BASE,
                limbs_value(self.limbs@.take(i as int)) + limb_power(i as nat) * carry as nat
                    == limbs_value(start.take(i as int)) * factor as nat + addend as nat,
                forall|j: int| i <= j < n ==> self.limbs@[j] == start[j],
            decreases n - i,
        {
            let limb: u32 = self.limbs[i];
            assert(limb as u64 * factor as u64 + carry <= 0xFFFF_FFFF * 0xFFFF_FFFF + 0xFFFF_FFFF)
                by (nonlinear_arith)
                requires
                    limb <= 0xFFFF_FFFF,
                    factor <= 0xFFFF_FFFF,
                    carry <= 0xFFFF_FFFF,
            ;
            let total: u64 = limb as u64 * factor as u64 + carry;
            let low: u32 = (total & 0xFFFF_FFFF) as u32;
            let high: u64 = total >> 32;
            assert(total == (total >> 32) * 0x1_0000_0000 + ((total & 0xFFFF_FFFF) as u32)
                && (total >> 32) < 0x1_0000_0000) by (bit_vector);
            let ghost before = self.limbs@;
            self.limbs.set(i, low);
            proof {
                lemma_value_take(start, i as nat);
                lemma_value_take(self.limbs@, i as nat);
                assert(self.limbs@.take(i as int) =~= before.take(i as int));
                let p = limb_power(i as nat);
                let b = LIMB_BASE as nat;
                let l = limb as nat;
                let f = factor as nat;
                let c = carry as nat;
                let lo = low as nat;
                let hi = high as nat;
                let v = limbs_value(before.take(i as int));
                let w = limbs_value(start.take(i as int));
                assert(limb_power(i as nat + 1) == b * p);
                assert((v + p * lo) + (b * p) * hi == (w + p * l) * f + addend as nat)
                    by (nonlinear_arith)
                    requires
                        v + p * c == w * f + addend as nat,
                        l * f + c == hi * b + lo,
                ;
            }
            carry = high;
            i = i + 1;
        }
        assert(self.limbs@.take(n as int) =~= self.limbs@);
        assert(start.take(n as int) =~= start);
        if carry > 0 {
            proof {
                lemma_value_push(self.limbs@, carry as u32);
            }
            self.limbs.push(carry as u32);
        } else {
            assert(limb_power(n as nat) * 0 == 0) by (nonlinear_arith);
        }
    }

    /// Double.
    pub fn double(&mut self)
        ensures
            final(self).value() == 2 * old(self).value(),
    {
        self.mul_add(2, 0);
    }

    fn limb(&self, i: usize) -> (limb: u32)
        ensures
            limb == (if i < self.limbs@.len() {
                self.limbs@[i as int]
            } else {
                0u32
            }),
    {
        if i < self.limbs.len() {
            self.limbs[i]
        } else {
            0
        }
    }

    /// Whether the number is smaller than another.
    pub fn less(&self, other: &Big) -> (less: bool)
        ensures
            less == (self.value() < other.value()),
    {
        let n: usize = if self.limbs.len() < other.limbs.len() {
            other.limbs.len()
        } else {
            self.limbs.len()
        };
        let ghost a = padded(self.limbs@, n as nat);
        let ghost b = padded(other.limbs@, n as nat);
        proof {
            lemma_padded(self.limbs@, n as nat);
            lemma_padded(other.limbs@, n as nat);
        }
        let mut i: usize = n;
        assert(a.take(n as int) =~= a);
        assert(b.take(n as int) =~= b);
        while i > 0
            invariant
                i <= n,
                a == padded(self.limbs@, n as nat),
                b == padded(other.limbs@, n as nat),
                self.limbs@.len() <= n,
                other.limbs@.len() <= n,
                (limbs_value(a.take(i as int)) < limbs_value(b.take(i as int))) == (limbs_value(a)
                    < limbs_value(b)),
                limbs_value(a) == self.value(),
                limbs_value(b) == other.value(),
            decreases i,
        {
            let j: usize = i - 1;
            let x: u32 = self.limb(j);
            let y: u32 = other.limb(j);
            proof {
                lemma_value_take(a, j as nat);
                lemma_value_take(b, j as nat);
                lemma_value_bound(a.take(j as int));
                lemma_value_bound(b.take(j as int));
                let p = limb_power(j as nat);
                let va = limbs_value(a.take(j as int));
                let vb = limbs_value(b.take(j as int));
                if x < y {
                    assert(va + p * (x as nat) < vb + p * (y as nat)) by (nonlinear_arith)
                        requires
                            va < p,
                            x + 1 <= y,
                    ;
                }
                if y < x {
                    assert(vb + p * (y as nat) < va + p * (x as nat)) by (nonlinear_arith)
                        requires
                            vb < p,
                            y + 1 <= x,
                    ;
                }
            }
            if x < y {
                return true;
            }
            if y < x {
                return false;
            }
            i = j;
        }
        assert(limbs_value(a.take(0)) == 0);
        assert(limbs_value(b.take(0)) == 0);
        false
    }

    /// Add a number.
    pub fn plus(&mut self, other: &Big)
        ensures
            final(self).value() == old(self).value() + other.value(),
    {
        let ghost start = self.limbs@;
        let n: usize = if self.limbs.len() < other.limbs.len() {
            other.limbs.len()
        } else {
            self.limbs.len()
        };
        let ghost a = padded(start, n as nat);
        let ghost b = padded(other.limbs@, n as nat);
        proof {
            lemma_padded(start, n as nat);
            lemma_padded(other.limbs@, n as nat);
        }
        let mut limbs: Vec<u32> = Vec::new();
        let mut carry: u64 = 0;
        let mut i: usize = 0;
        assert(limbs_value(a.take(0)) == 0);
        assert(limbs_value(b.take(0)) == 0);
        assert(limb_power(0) * 0 == 0);
        while i < n
            invariant
                i <= n,
                limbs@.len() == i,
                start == self.limbs@,
                a == padded(start, n as nat),
                b == padded(other.limbs@, n as nat),
                start.len() <= n,
                other.limbs@.len() <= n,
                carry <= 1,
                limbs_value(limbs@) + limb_power(i as nat) * carry as nat == limbs_value(
                    a.take(i as int),
                ) + limbs_value(b.take(i as int)),
            decreases n - i,
        {
            let total: u64 = self.limb(i) as u64 + other.limb(i) as u64 + carry;
            let ghost old_carry = carry;
            let ghost before = limbs@;
            let low: u64 = if total >= LIMB_BASE {
                carry = 1;
                total - LIMB_BASE
            } else {
                carry = 0;
                total
            };
            limbs.push(low as u32);
            proof {
                lemma_value_take(a, i as nat);
                lemma_value_take(b, i as nat);
                lemma_value_push(before, low as u32);
                let p = limb_power(i as nat);
                let base = LIMB_BASE as nat;
                let v = limbs_value(before);
                let va = limbs_value(a.take(i as int));
                let vb = limbs_value(b.take(i as int));
                let lo = low as nat;
                let xa = a[i as int] as nat;
                let yb = b[i as int] as nat;
                let oc = old_carry as nat;
                let nc = carry as nat;
                assert(limb_power(i as nat + 1) == base * p);
                assert((v + p * lo) + (base * p) * nc == (va + p * xa) + (vb + p * yb))
                    by (nonlinear_arith)
                    requires
                        v + p * oc == va + vb,
                        lo + base * nc == xa + yb + oc,
                ;
            }
            i = i + 1;
        }
        proof {
            assert(a.take(n as int) =~= a);
            assert(b.take(n as int) =~= b);
        }
        if carry > 0 {
            proof {
                lemma_value_push(limbs@, 1);
            }
            limbs.push(1);
        } else {
            assert(limb_power(n as nat) * 0 == 0) by (nonlinear_arith);
        }
        self.limbs = limbs;
    }

    /// Subtract a number that is not larger.
    pub fn subtract(&mut self, other: &Big)
        requires
            other.value() <= old(self).value(),
        ensures
            final(self).value() == old(self).value() - other.value(),
    {
        let ghost start = self.limbs@;
        let n: usize = if self.limbs.len() < other.limbs.len() {
            other.limbs.len()
        } else {
            self.limbs.len()
        };
        let ghost a = padded(start, n as nat);
        let ghost b = padded(other.limbs@, n as nat);
        proof {
            lemma_padded(start, n as nat);
            lemma_padded(other.limbs@, n as nat);
        }
        let mut limbs: Vec<u32> = Vec::new();
        let mut borrow: u64 = 0;
        let mut i: usize = 0;
        assert(limbs_value(a.take(0)) == 0);
        assert(limbs_value(b.take(0)) == 0);
        assert(limb_power(0) * 0 == 0);
        while i < n
            invariant
                i <= n,
                limbs@.len() == i,
                start == self.limbs@,
                a == padded(start, n as nat),
                b == padded(other.limbs@, n as nat),
                start.len() <= n,
                other.limbs@.len() <= n,
                borrow <= 1,
                limbs_value(limbs@) + limbs_value(b.take(i as int)) == limbs_value(
                    a.take(i as int),
                ) + limb_power(i as nat) * borrow as nat,
            decreases n - i,
        {
            let x: u64 = self.limb(i) as u64;
            let y: u64 = other.limb(i) as u64 + borrow;
            let ghost old_borrow = borrow;
            let ghost before = limbs@;
            let low: u64 = if x >= y {
                borrow = 0;
                x - y
            } else {
                borrow = 1;
                x + LIMB_BASE - y
            };
            limbs.push(low as u32);
            proof {
                lemma_value_take(a, i as nat);
                lemma_value_take(b, i as nat);
                lemma_value_push(before, low as u32);
                let p = limb_power(i as nat);
                let base = LIMB_BASE as nat;
                let v = limbs_value(before);
                let va = limbs_value(a.take(i as int));
                let vb = limbs_value(b.take(i as int));
                let lo = low as nat;
                let xa = a[i as int] as nat;
                let yb = b[i as int] as nat;
                let ob = old_borrow as nat;
                let nb = borrow as nat;
                assert(limb_power(i as nat + 1) == base * p);
                assert((v + p * lo) + (vb + p * yb) == (va + p * xa) + (base * p) * nb)
                    by (nonlinear_arith)
                    requires
                        v + vb == va + p * ob,
                        lo + yb + ob == xa + base * nb,
                ;
            }
            i = i + 1;
        }
        proof {
            assert(a.take(n as int) =~= a);
            assert(b.take(n as int) =~= b);
            lemma_value_bound(limbs@);
            if borrow == 1 {
                let p = limb_power(n as nat);
                assert(p * 1 == p) by (nonlinear_arith);
                assert(false);
            }
            assert(limb_power(n as nat) * 0 == 0) by (nonlinear_arith);
        }
        self.limbs = limbs;
    }

    /// Whether the number is zero.
    pub fn is_zero(&self) -> (zero: bool)
        ensures
            zero == (self.value() == 0),
    {
        let one = Big::from_word(1);
        self.less(&one)
    }
}

/// Two to a power.
pub open spec fn two_to(n: nat) -> nat
    decreases n,
{
    if n == 0 {
        1
    } else {
        2 * two_to((n - 1) as nat)
    }
}

/// Ten to a power.
pub open spec fn ten_to(n: nat) -> nat
    decreases n,
{
    if n == 0 {
        1
    } else {
        10 * ten_to((n - 1) as nat)
    }
}

/// Powers of two are positive and multiply by adding exponents.
pub proof fn lemma_two_to(a: nat, b: nat)
    ensures
        two_to(a) > 0,
        two_to(a + b) == two_to(a) * two_to(b),
    decreases a,
{
    if a > 0 {
        lemma_two_to((a - 1) as nat, b);
        let x = two_to((a - 1) as nat);
        let y = two_to(b);
        assert(2 * (x * y) == (2 * x) * y) by (nonlinear_arith);
        assert(a + b - 1 == (a - 1) + b);
    } else {
        assert(1 * two_to(b) == two_to(b));
    }
}

/// Some powers of two.
pub proof fn lemma_word_powers()
    ensures
        two_to(0) == 1,
        two_to(16) == 0x1_0000,
        two_to(32) == 0x1_0000_0000,
        two_to(52) == 0x10_0000_0000_0000,
        two_to(53) == 0x20_0000_0000_0000,
        two_to(63) == 0x8000_0000_0000_0000,
        two_to(64) == 0x1_0000_0000_0000_0000,
{
    assert(two_to(4) == 16) by {
        reveal_with_fuel(two_to, 5);
    }
    lemma_two_to(4, 4);
    assert(two_to(8) == 0x100) by (nonlinear_arith)
        requires
            two_to(8) == two_to(4) * two_to(4),
            two_to(4) == 0x10,
            two_to(4) == 0x10,
    ;
    lemma_two_to(8, 8);
    assert(two_to(16) == 0x10000) by (nonlinear_arith)
        requires
            two_to(16) == two_to(8) * two_to(8),
            two_to(8) == 0x100,
            two_to(8) == 0x100,
    ;
    lemma_two_to(16, 16);
    assert(two_to(32) == 0x100000000) by (nonlinear_arith)
        requires
            two_to(32) == two_to(16) * two_to(16),
            two_to(16) == 0x10000,
            two_to(16) == 0x10000,
    ;
    lemma_two_to(32, 16);
    assert(two_to(48) == 0x1000000000000) by (nonlinear_arith)
        requires
            two_to(48) == two_to(32) * two_to(16),
            two_to(32) == 0x100000000,
            two_to(16) == 0x10000,
    ;
    lemma_two_to(48, 4);
    assert(two_to(52) == 0x10000000000000) by (nonlinear_arith)
        requires
            two_to(52) == two_to(48) * two_to(4),
            two_to(48) == 0x1000000000000,
            two_to(4) == 0x10,
    ;
    lemma_two_to(32, 32);
    assert(two_to(64) == 0x10000000000000000) by (nonlinear_arith)
        requires
            two_to(64) == two_to(32) * two_to(32),
            two_to(32) == 0x100000000,
            two_to(32) == 0x100000000,
    ;
    assert(two_to(53) == 2 * two_to(52));
    assert(two_to(64) == 2 * two_to(63));
}

/// Powers of ten are positive and multiply by adding exponents.
pub proof fn lemma_ten_to(a: nat, b: nat)
    ensures
        ten_to(a) > 0,
        ten_to(a + b) == ten_to(a) * ten_to(b),
    decreases a,
{
    if a > 0 {
        lemma_ten_to((a - 1) as nat, b);
        let x = ten_to((a - 1) as nat);
        let y = ten_to(b);
        assert(10 * (x * y) == (10 * x) * y) by (nonlinear_arith);
        assert(a + b - 1 == (a - 1) + b);
    } else {
        assert(1 * ten_to(b) == ten_to(b));
    }
}

impl Big {
    /// Multiply by two to a power.
    pub fn shift(&mut self, n: u32)
        ensures
            final(self).value() == old(self).value() * two_to(n as nat),
    {
        let mut left: u32 = n;
        assert(old(self).value() * 1 == old(self).value());
        while left > 0
            invariant
                left <= n,
                self.value() == old(self).value() * two_to((n - left) as nat),
            decreases left,
        {
            let ghost v = old(self).value();
            let ghost t = two_to((n - left) as nat);
            assert(2 * (v * t) == v * (2 * t)) by (nonlinear_arith);
            self.double();
            left = left - 1;
        }
    }

    /// Multiply by ten to a power.
    pub fn scale(&mut self, n: u32)
        ensures
            final(self).value() == old(self).value() * ten_to(n as nat),
    {
        let mut left: u32 = n;
        assert(old(self).value() * 1 == old(self).value());
        while left > 0
            invariant
                left <= n,
                self.value() == old(self).value() * ten_to((n - left) as nat),
            decreases left,
        {
            let ghost v = old(self).value();
            let ghost t = ten_to((n - left) as nat);
            assert((v * t) * 10 == v * (10 * t)) by (nonlinear_arith);
            self.mul_add(10, 0);
            left = left - 1;
        }
    }

    /// Divide: quotient and remainder. The quotient fits a word.
    pub fn divide(self, by: &Big) -> (result: (u64, Big))
        requires
            by.value() > 0,
            self.value() < by.value() * two_to(64),
        ensures
            result.0 as nat == self.value() / by.value(),
            result.1.value() == self.value() % by.value(),
    {
        let ghost n = self.value();
        let ghost d = by.value();
        let mut shifted: Vec<Big> = Vec::new();
        let mut next = by.copy();
        let mut i: usize = 0;
        assert(d * 1 == d);
        while i < 64
            invariant
                i <= 64,
                shifted@.len() == i,
                d == by.value(),
                next.value() == d * two_to(i as nat),
                forall|j: int| 0 <= j < i ==> #[trigger] shifted@[j].value() == d * two_to(j as nat),
            decreases 64 - i,
        {
            let current = next.copy();
            shifted.push(current);
            let ghost t = two_to(i as nat);
            assert(2 * (d * t) == d * (2 * t)) by (nonlinear_arith);
            next.double();
            i = i + 1;
        }
        let mut rest = self;
        let mut quotient: u64 = 0;
        let mut bit: u64 = 0x8000_0000_0000_0000;
        let mut at: usize = 64;
        proof {
            lemma_word_powers();
        }
        while at > 0
            invariant
                at <= 64,
                d > 0,
                shifted@.len() == 64,
                forall|j: int| 0 <= j < 64 ==> #[trigger] shifted@[j].value() == d * two_to(
                    j as nat,
                ),
                rest.value() < d * two_to(at as nat),
                n == quotient as nat * d + rest.value(),
                at > 0 ==> bit as nat == two_to((at - 1) as nat),
                quotient as nat + two_to(at as nat) <= 0x1_0000_0000_0000_0000,
            decreases at,
        {
            let k: usize = at - 1;
            let ghost t = two_to(k as nat);
            let ghost q = quotient as nat;
            let ghost r = rest.value();
            proof {
                assert(two_to(at as nat) == 2 * t);
                assert(d * (2 * t) == 2 * (d * t)) by (nonlinear_arith);
            }
            if !rest.less(&shifted[k]) {
                rest.subtract(&shifted[k]);
                quotient = quotient + bit;
                assert(n == (q + t) * d + (r - d * t)) by (nonlinear_arith)
                    requires
                        n == q * d + r,
                ;
            }
            proof {
                if k > 0 {
                    assert(t == 2 * two_to((k - 1) as nat));
                }
            }
            bit = bit / 2;
            at = k;
        }
        proof {
            assert(d * two_to(0) == d) by (nonlinear_arith)
                requires
                    two_to(0) == 1,
            ;
            let q = quotient as nat;
            let r = rest.value();
            vstd::arithmetic::div_mod::lemma_fundamental_div_mod_converse(
                n as int,
                d as int,
                q as int,
                r as int,
            );
        }
        (quotient, rest)
    }
}

/// The limbs with zeros above them.
spec fn padded(limbs: Seq<u32>, n: nat) -> Seq<u32> {
    Seq::new(
        n,
        |i: int|
            if i < limbs.len() {
                limbs[i]
            } else {
                0u32
            },
    )
}

proof fn lemma_padded(limbs: Seq<u32>, n: nat)
    requires
        limbs.len() <= n,
    ensures
        limbs_value(padded(limbs, n)) == limbs_value(limbs),
    decreases n - limbs.len(),
{
    if n == limbs.len() {
        assert(padded(limbs, n) =~= limbs);
    } else {
        let m = (n - 1) as nat;
        lemma_padded(limbs, m);
        assert(padded(limbs, n) =~= padded(limbs, m).push(0));
        lemma_value_push(padded(limbs, m), 0);
        assert(limb_power(m) * 0 == 0) by (nonlinear_arith);
    }
}

} // verus!
