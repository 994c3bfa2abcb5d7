//! Tests of exactness: whether a sum or a difference that the decimal
//! arithmetic returned is the exact one.
//!
//! The value of a decimal in units of `10^-28` can need 190 bits. It is
//! held here as two limbs to the base `10^19`, which is enough to add three
//! such values and to compare the totals.

use crate::decimal::difference_is_exact;
use crate::decimal::lemma_pow10_positive;
use crate::decimal::pow10;
use crate::decimal::sum_is_exact;
use crate::decimal::Decimal;
use vstd::arithmetic::div_mod::lemma_fundamental_div_mod;
use vstd::arithmetic::div_mod::lemma_fundamental_div_mod_converse;
use vstd::prelude::*;

verus! {

/// The base of the limbs, `10^19`.
pub const LIMB: u128 = 10_000_000_000_000_000_000;

/// A bound on the high limb of one decimal's value, `8 * 10^37`.
pub const HIGH_LIMIT: u128 = 80_000_000_000_000_000_000_000_000_000_000_000_000;

/// The value of a decimal without its sign, in units of `10^-28`.
pub open spec fn size_of(d: Decimal) -> int {
    if d@ < 0 {
        -d@
    } else {
        d@
    }
}

/// The number that two limbs stand for.
pub open spec fn limbs(hi: int, lo: int) -> int {
    hi * pow10(19) + lo
}

/// Powers of ten multiply as their exponents add.
pub proof fn lemma_pow10_sum(a: nat, b: nat)
    ensures
        pow10(a + b) == pow10(a) * pow10(b),
    decreases a,
{
    if a == 0 {
        assert(1 * pow10(b) == pow10(b));
    } else {
        lemma_pow10_sum((a - 1) as nat, b);
        assert(pow10(a + b) == 10 * pow10(((a - 1) as nat) + b));
        assert(10 * (pow10((a - 1) as nat) * pow10(b)) == (10 * pow10((a - 1) as nat)) * pow10(b))
            by (nonlinear_arith);
    }
}

/// Powers of ten grow with their exponents.
pub proof fn lemma_pow10_grows(a: nat, b: nat)
    requires
        a <= b,
    ensures
        pow10(a) <= pow10(b),
    decreases b,
{
    if a < b {
        lemma_pow10_grows(a, (b - 1) as nat);
        lemma_pow10_positive((b - 1) as nat);
    }
}

/// Two limbs stand for one number only.
pub proof fn lemma_limbs_unique(h1: int, l1: int, h2: int, l2: int)
    requires
        0 <= l1 < pow10(19),
        0 <= l2 < pow10(19),
    ensures
        limbs(h1, l1) == limbs(h2, l2) <==> (h1 == h2 && l1 == l2),
{
    if limbs(h1, l1) == limbs(h2, l2) {
        let x = limbs(h1, l1);
        lemma_fundamental_div_mod_converse(x, pow10(19), h1, l1);
        lemma_fundamental_div_mod_converse(x, pow10(19), h2, l2);
    }
}

/// `10^n` for `n` up to 19.
fn ten_to(n: u32) -> (r: u128)
    requires
        n <= 19,
    ensures
        r == pow10(n as nat),
        1 <= r <= LIMB,
{
    proof {
        reveal_with_fuel(pow10, 20);
    }
    let mut r: u128 = 1;
    let mut i: u32 = 0;
    while i < n
        invariant
            i <= n,
            n <= 19,
            r == pow10(i as nat),
            pow10(19) == LIMB,
        decreases n - i,
    {
        proof {
            lemma_pow10_grows(i as nat, 18);
            lemma_pow10_positive(i as nat);
            assert(pow10(19) == 10 * pow10(18));
        }
        r = r * 10;
        i = i + 1;
    }
    proof {
        lemma_pow10_grows(n as nat, 19);
        lemma_pow10_positive(n as nat);
    }
    r
}

/// The value of `d` without its sign, as two limbs.
fn size_limbs(d: &Decimal) -> (r: (u128, u128))
    ensures
        limbs(r.0 as int, r.1 as int) == size_of(*d),
        r.0 <= HIGH_LIMIT,
        r.1 < LIMB,
{
    let m: i128 = d.mantissa();
    let mag: u128 = if m < 0 {
        (-m) as u128
    } else {
        m as u128
    };
    let shift: u32 = 28 - d.scale();
    let low: u32 = if shift > 19 {
        19
    } else {
        shift
    };
    let high: u32 = shift - low;
    let small: u128 = ten_to(high);
    let large: u128 = ten_to(low);
    proof {
        reveal_with_fuel(pow10, 20);
        lemma_pow10_grows(high as nat, 9);
        assert(small <= 1_000_000_000);
        assert(mag * small <= 79_228_162_514_264_337_593_543_950_335 * 1_000_000_000)
            by (nonlinear_arith)
            requires
                mag <= 79_228_162_514_264_337_593_543_950_335,
                small <= 1_000_000_000,
        ;
    }
    let wide: u128 = mag * small;
    let wide_hi: u128 = wide / LIMB;
    let wide_lo: u128 = wide % LIMB;
    proof {
        assert(wide_hi <= 7_922_816_251_426_433_759);
        assert(wide_hi * large <= 7_922_816_251_426_433_759 * 10_000_000_000_000_000_000)
            by (nonlinear_arith)
            requires
                wide_hi <= 7_922_816_251_426_433_759,
                large <= 10_000_000_000_000_000_000,
        ;
        assert(wide_lo * large <= 10_000_000_000_000_000_000 * 10_000_000_000_000_000_000)
            by (nonlinear_arith)
            requires
                wide_lo <= 10_000_000_000_000_000_000,
                large <= 10_000_000_000_000_000_000,
        ;
    }
    let tail: u128 = wide_lo * large;
    let hi: u128 = wide_hi * large + tail / LIMB;
    let lo: u128 = tail % LIMB;
    proof {
        reveal_with_fuel(pow10, 20);
        let p = pow10((28 - d.scale_of()) as nat);
        let base = pow10(19);
        lemma_fundamental_div_mod(wide as int, LIMB as int);
        lemma_fundamental_div_mod(tail as int, LIMB as int);
        lemma_pow10_sum(high as nat, low as nat);
        assert(p == small * large);
        d.lemma_sign();
        assert(size_of(*d) == mag * p) by {
            assert((-m) * p == -(m * p)) by (nonlinear_arith);
        }
        assert(mag * (small * large) == (mag * small) * large) by (nonlinear_arith);
        assert(base == LIMB);
        assert(wide == wide_hi * base + wide_lo) by (nonlinear_arith)
            requires
                wide == base * wide_hi + wide_lo,
        ;
        assert(tail == (tail / LIMB) * base + lo) by (nonlinear_arith)
            requires
                tail == base * (tail / LIMB) + lo,
        ;
        assert((wide_hi * base + wide_lo) * large == (wide_hi * large) * base + wide_lo * large)
            by (nonlinear_arith);
        assert((wide_hi * large) * base + ((tail / LIMB) * base + lo) == (wide_hi * large + tail
            / LIMB) * base + lo) by (nonlinear_arith);
    }
    (hi, lo)
}

/// Whether `sum` is exactly `a + b`.
pub fn is_exact_sum(a: &Decimal, b: &Decimal, sum: &Decimal) -> (r: bool)
    ensures
        r == (sum@ == a@ + b@),
{
    proof {
        reveal_with_fuel(pow10, 20);
    }
    let (a_hi, a_lo) = size_limbs(a);
    let (b_hi, b_lo) = size_limbs(b);
    let (s_hi, s_lo) = size_limbs(sum);
    // What is above zero on the left, or below zero on the right, counts on
    // one side; the rest on the other. The sum is exact where the sides
    // are equal.
    let mut left_hi: u128 = 0;
    let mut left_lo: u128 = 0;
    let mut right_hi: u128 = 0;
    let mut right_lo: u128 = 0;
    if a.is_negative() {
        right_hi = right_hi + a_hi;
        right_lo = right_lo + a_lo;
    } else {
        left_hi = left_hi + a_hi;
        left_lo = left_lo + a_lo;
    }
    if b.is_negative() {
        right_hi = right_hi + b_hi;
        right_lo = right_lo + b_lo;
    } else {
        left_hi = left_hi + b_hi;
        left_lo = left_lo + b_lo;
    }
    if sum.is_negative() {
        left_hi = left_hi + s_hi;
        left_lo = left_lo + s_lo;
    } else {
        right_hi = right_hi + s_hi;
        right_lo = right_lo + s_lo;
    }
    let left_top: u128 = left_hi + left_lo / LIMB;
    let left_rest: u128 = left_lo % LIMB;
    let right_top: u128 = right_hi + right_lo / LIMB;
    let right_rest: u128 = right_lo % LIMB;
    proof {
        let base = pow10(19);
        lemma_fundamental_div_mod(left_lo as int, LIMB as int);
        lemma_fundamental_div_mod(right_lo as int, LIMB as int);
        let left = limbs(left_hi as int, left_lo as int);
        let right = limbs(right_hi as int, right_lo as int);
        assert(left - right == a@ + b@ - sum@) by (nonlinear_arith)
            requires
                left == left_hi * base + left_lo,
                right == right_hi * base + right_lo,
                a_hi * base + a_lo == size_of(*a),
                b_hi * base + b_lo == size_of(*b),
                s_hi * base + s_lo == size_of(*sum),
                ({
                    let a_left = if a@ < 0 { 0int } else { 1int };
                    let b_left = if b@ < 0 { 0int } else { 1int };
                    let s_left = if sum@ < 0 { 1int } else { 0int };
                    &&& left_hi == a_left * a_hi + b_left * b_hi + s_left * s_hi
                    &&& left_lo == a_left * a_lo + b_left * b_lo + s_left * s_lo
                    &&& right_hi == (1 - a_left) * a_hi + (1 - b_left) * b_hi + (1 - s_left) * s_hi
                    &&& right_lo == (1 - a_left) * a_lo + (1 - b_left) * b_lo + (1 - s_left) * s_lo
                }),
        ;
        assert(left == limbs(left_top as int, left_rest as int)) by (nonlinear_arith)
            requires
                left == left_hi * base + left_lo,
                left_lo == base * (left_lo / LIMB) + left_rest,
                left_top == left_hi + left_lo / LIMB,
                limbs(left_top as int, left_rest as int) == left_top * base + left_rest,
        ;
        assert(right == limbs(right_top as int, right_rest as int)) by (nonlinear_arith)
            requires
                right == right_hi * base + right_lo,
                right_lo == base * (right_lo / LIMB) + right_rest,
                right_top == right_hi + right_lo / LIMB,
                limbs(right_top as int, right_rest as int) == right_top * base + right_rest,
        ;
        lemma_limbs_unique(
            left_top as int,
            left_rest as int,
            right_top as int,
            right_rest as int,
        );
    }
    left_top == right_top && left_rest == right_rest
}

impl Decimal {
    /// The sum `self + rhs` where the arithmetic returns the exact one,
    /// else `None`: where it overflows or rounds.
    pub fn exact_add(&self, rhs: &Decimal) -> (r: Option<Decimal>)
        ensures
            r.is_some() == sum_is_exact(*self, *rhs),
            r matches Some(x) ==> self.plus(*rhs) == Some(x) && x@ == self@ + rhs@,
    {
        match self.checked_add(*rhs) {
            Some(x) => if is_exact_sum(self, rhs, &x) {
                Some(x)
            } else {
                None
            },
            None => None,
        }
    }

    /// The difference `self - rhs` where the arithmetic returns the exact
    /// one, else `None`: where it overflows or rounds.
    pub fn exact_sub(&self, rhs: &Decimal) -> (r: Option<Decimal>)
        ensures
            r.is_some() == difference_is_exact(*self, *rhs),
            r matches Some(x) ==> self.minus(*rhs) == Some(x) && x@ == self@ - rhs@,
    {
        match self.checked_sub(*rhs) {
            Some(x) => if is_exact_sum(&x, rhs, self) {
                Some(x)
            } else {
                None
            },
            None => None,
        }
    }
}

} // verus!
