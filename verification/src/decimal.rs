//! Fixed-precision decimal numbers.
//!
//! A [`Decimal`] is a signed 96-bit mantissa together with a scale between 0
//! and 28; it stands for `mantissa / 10^scale`. Contracts speak of a decimal
//! through its view, the value counted in units of `10^-28`, which is an
//! integer for every decimal.
//!
//! Sums, differences, products and quotients are computed by the
//! `rust_decimal` crate, which rounds a result that does not fit and reports
//! overflow. Those rules are not restated here: the result of each operation
//! has a name ([`decimal_sum`] and its siblings), and the contracts of this
//! library speak of those names. Comparison, flooring, truncation and
//! normalisation have short exact statements and are specified directly.
//! Whether a given sum or difference came out exact is tested in
//! [`crate::exact`].

use std::cmp::Ordering;
use vstd::prelude::*;

verus! {

/// The largest scale a decimal can carry.
pub const MAX_SCALE: u32 = 28;

/// The largest mantissa a decimal can carry, `2^96 - 1`.
pub const MAX_MANTISSA: i128 = 79_228_162_514_264_337_593_543_950_335;

/// `10^n`.
pub open spec fn pow10(n: nat) -> int
    decreases n,
{
    if n == 0 {
        1
    } else {
        10 * pow10((n - 1) as nat)
    }
}

/// Powers of ten are positive.
pub proof fn lemma_pow10_positive(n: nat)
    ensures
        pow10(n) > 0,
    decreases n,
{
    if n > 0 {
        lemma_pow10_positive((n - 1) as nat);
    }
}

/// The number of decimal digits of `n`; zero has none.
pub open spec fn digit_count(n: nat) -> nat
    decreases n,
{
    if n == 0 {
        0
    } else {
        1 + digit_count(n / 10)
    }
}

/// `m / d` rounded toward zero, for a positive `d`.
pub open spec fn quotient_toward_zero(m: int, d: int) -> int {
    if m >= 0 {
        m / d
    } else {
        -((-m) / d)
    }
}

/// What `rust_decimal` returns for `a + b`, the operands and the result given
/// as mantissa and scale; `None` is overflow.
pub uninterp spec fn decimal_sum(am: int, asc: nat, bm: int, bsc: nat) -> Option<(int, nat)>;

/// What `rust_decimal` returns for `a - b`; `None` is overflow.
pub uninterp spec fn decimal_difference(am: int, asc: nat, bm: int, bsc: nat) -> Option<
    (int, nat),
>;

/// What `rust_decimal` returns for `a * b`; `None` is overflow.
pub uninterp spec fn decimal_product(am: int, asc: nat, bm: int, bsc: nat) -> Option<(int, nat)>;

/// What `rust_decimal` returns for `a / b` with a non-zero `b`; `None` is
/// overflow.
pub uninterp spec fn decimal_quotient(am: int, asc: nat, bm: int, bsc: nat) -> Option<(int, nat)>;

/// What `rust_decimal` reads out of a piece of text; `None` where it is no
/// decimal number.
pub uninterp spec fn decimal_parsed(text: Seq<char>) -> Option<(int, nat)>;

/// Whether `rust_decimal` returns the exact sum of `a` and `b`: it neither
/// overflows nor rounds.
pub open spec fn sum_is_exact(a: Decimal, b: Decimal) -> bool {
    a.plus(b) matches Some(x) && x@ == a@ + b@
}

/// Whether `rust_decimal` returns the exact difference of `a` and `b`: it
/// neither overflows nor rounds.
pub open spec fn difference_is_exact(a: Decimal, b: Decimal) -> bool {
    a.minus(b) matches Some(x) && x@ == a@ - b@
}

/// The decimal arithmetic overflowed, or its result left the range that the
/// operation allows.
#[derive(Debug, Clone, Copy, PartialEq, Eq, Structural)]
pub struct ArithmeticError;

/// A decimal number `mantissa / 10^scale`.
#[derive(Clone, Copy, Debug)]
pub struct Decimal {
    mantissa: i128,
    scale: u32,
}

impl View for Decimal {
    type V = int;

    /// The value in units of `10^-28`.
    open spec fn view(&self) -> int {
        self.mantissa_of() * pow10((28 - self.scale_of()) as nat)
    }
}

impl Decimal {
    /// Whether mantissa and scale are within what a decimal can carry. Every
    /// decimal that executable code holds is.
    #[verifier::type_invariant]
    pub closed spec fn in_bounds(self) -> bool {
        &&& -MAX_MANTISSA <= self.mantissa <= MAX_MANTISSA
        &&& self.scale <= MAX_SCALE
    }

    /// The mantissa as a mathematical integer.
    pub closed spec fn mantissa_of(self) -> int {
        self.mantissa as int
    }

    /// The scale as a natural number.
    pub closed spec fn scale_of(self) -> nat {
        self.scale as nat
    }

    /// The decimal `m / 10^s`.
    pub closed spec fn of(m: int, s: nat) -> Decimal {
        Decimal { mantissa: m as i128, scale: s as u32 }
    }

    /// The decimal with the given mantissa and scale, where there is one.
    pub open spec fn pack(raw: Option<(int, nat)>) -> Option<Decimal> {
        match raw {
            Some((m, s)) => Some(Decimal::of(m, s)),
            None => None,
        }
    }

    /// The decimal with the sign turned, at the same scale.
    pub closed spec fn negated(self) -> Decimal {
        Decimal { mantissa: (-self.mantissa) as i128, scale: self.scale }
    }

    /// The decimal without its sign, at the same scale.
    pub open spec fn magnitude(self) -> Decimal {
        if self.mantissa_of() < 0 {
            self.negated()
        } else {
            self
        }
    }

    /// Minus one, zero or one as the decimal is negative, zero or positive, at
    /// scale 0.
    pub open spec fn signum_of(self) -> Decimal {
        if self.mantissa_of() < 0 {
            Decimal::of(-1, 0)
        } else if self.mantissa_of() == 0 {
            Decimal::of(0, 0)
        } else {
            Decimal::of(1, 0)
        }
    }

    /// `of(m, s)` has mantissa `m` and scale `s` wherever a decimal can carry
    /// them.
    pub proof fn lemma_of(m: int, s: nat)
        requires
            -MAX_MANTISSA <= m <= MAX_MANTISSA,
            s <= MAX_SCALE,
        ensures
            Decimal::of(m, s).mantissa_of() == m,
            Decimal::of(m, s).scale_of() == s,
            Decimal::of(m, s).in_bounds(),
            Decimal::of(m, s)@ == m * pow10((28 - s) as nat),
    {
    }

    /// A decimal is made of its mantissa and its scale.
    pub proof fn lemma_of_parts(self)
        ensures
            self == Decimal::of(self.mantissa_of(), self.scale_of()),
    {
    }

    /// Turning the sign turns the sign of the value and keeps the bounds.
    pub proof fn lemma_negated(self)
        requires
            self.in_bounds(),
        ensures
            self.negated()@ == -self@,
            self.negated().mantissa_of() == -self.mantissa_of(),
            self.negated().scale_of() == self.scale_of(),
            self.negated().in_bounds(),
    {
        let p = pow10((28 - self.scale_of()) as nat);
        let m = self.mantissa_of();
        assert((-m) * p == -(m * p)) by (nonlinear_arith);
    }

    /// The sum as `rust_decimal` computes it.
    pub open spec fn plus(self, rhs: Decimal) -> Option<Decimal> {
        Decimal::pack(
            decimal_sum(self.mantissa_of(), self.scale_of(), rhs.mantissa_of(), rhs.scale_of()),
        )
    }

    /// The difference as `rust_decimal` computes it.
    pub open spec fn minus(self, rhs: Decimal) -> Option<Decimal> {
        Decimal::pack(
            decimal_difference(
                self.mantissa_of(),
                self.scale_of(),
                rhs.mantissa_of(),
                rhs.scale_of(),
            ),
        )
    }

    /// The product as `rust_decimal` computes it.
    pub open spec fn times(self, rhs: Decimal) -> Option<Decimal> {
        Decimal::pack(
            decimal_product(self.mantissa_of(), self.scale_of(), rhs.mantissa_of(), rhs.scale_of()),
        )
    }

    /// The quotient as `rust_decimal` computes it; there is none by zero.
    pub open spec fn over(self, rhs: Decimal) -> Option<Decimal> {
        if rhs.mantissa_of() == 0 {
            None
        } else {
            Decimal::pack(
                decimal_quotient(
                    self.mantissa_of(),
                    self.scale_of(),
                    rhs.mantissa_of(),
                    rhs.scale_of(),
                ),
            )
        }
    }

    /// The decimal that a piece of text spells, as `rust_decimal` reads it.
    pub open spec fn parsed(text: Seq<char>) -> Option<Decimal> {
        Decimal::pack(decimal_parsed(text))
    }

    /// The sign of the value is the sign of the mantissa.
    pub proof fn lemma_sign(self)
        ensures
            self@ == 0 <==> self.mantissa_of() == 0,
            self@ > 0 <==> self.mantissa_of() > 0,
            self@ < 0 <==> self.mantissa_of() < 0,
    {
        let p = pow10((28 - self.scale_of()) as nat);
        let m = self.mantissa_of();
        lemma_pow10_positive((28 - self.scale_of()) as nat);
        assert(m == 0 ==> m * p == 0) by (nonlinear_arith);
        assert(m > 0 && p > 0 ==> m * p > 0) by (nonlinear_arith);
        assert(m < 0 && p > 0 ==> m * p < 0) by (nonlinear_arith);
    }

    /// The decimal `num / 10^scale`.
    pub fn new(num: i64, scale: u32) -> (r: Decimal)
        requires
            scale <= MAX_SCALE,
        ensures
            r == Decimal::of(num as int, scale as nat),
            r.mantissa_of() == num,
            r.scale_of() == scale,
            r.in_bounds(),
    {
        Decimal { mantissa: num as i128, scale }
    }

    /// The decimal `num / 10^scale`, or `None` where the mantissa needs more
    /// than 96 bits or the scale is above 28.
    pub fn from_i128_with_scale(num: i128, scale: u32) -> (r: Option<Decimal>)
        ensures
            r.is_some() <==> (-MAX_MANTISSA <= num <= MAX_MANTISSA && scale <= MAX_SCALE),
            r matches Some(d) ==> d == Decimal::of(num as int, scale as nat) && d.mantissa_of()
                == num && d.scale_of() == scale,
    {
        if scale <= MAX_SCALE && -MAX_MANTISSA <= num && num <= MAX_MANTISSA {
            Some(Decimal { mantissa: num, scale })
        } else {
            None
        }
    }

    /// Zero, with scale 0.
    pub fn zero() -> (r: Decimal)
        ensures
            r == Decimal::of(0, 0),
            r@ == 0,
            r.mantissa_of() == 0,
            r.scale_of() == 0,
            r.in_bounds(),
    {
        assert(0 * pow10(28) == 0) by (nonlinear_arith);
        Decimal { mantissa: 0, scale: 0 }
    }

    /// One, with scale 0.
    pub fn one() -> (r: Decimal)
        ensures
            r == Decimal::of(1, 0),
            r@ == pow10(28),
            r.mantissa_of() == 1,
            r.scale_of() == 0,
            r.in_bounds(),
    {
        assert(1 * pow10(28) == pow10(28)) by (nonlinear_arith);
        Decimal { mantissa: 1, scale: 0 }
    }

    /// The mantissa.
    pub fn mantissa(&self) -> (m: i128)
        ensures
            m == self.mantissa_of(),
            -MAX_MANTISSA <= m <= MAX_MANTISSA,
    {
        proof {
            use_type_invariant(self);
        }
        self.mantissa
    }

    /// The scale.
    pub fn scale(&self) -> (s: u32)
        ensures
            s == self.scale_of(),
            s <= MAX_SCALE,
    {
        proof {
            use_type_invariant(self);
        }
        self.scale
    }

    /// Whether the value is zero.
    pub fn is_zero(&self) -> (b: bool)
        ensures
            b == (self@ == 0),
    {
        proof {
            self.lemma_sign();
        }
        self.mantissa == 0
    }

    /// Whether the value is below zero.
    pub fn is_negative(&self) -> (b: bool)
        ensures
            b == (self@ < 0),
    {
        proof {
            self.lemma_sign();
        }
        self.mantissa < 0
    }

    /// Whether the value is above zero.
    pub fn is_positive(&self) -> (b: bool)
        ensures
            b == (self@ > 0),
    {
        proof {
            self.lemma_sign();
        }
        self.mantissa > 0
    }

    /// The value with its sign turned, at the same scale.
    pub fn neg(&self) -> (r: Decimal)
        ensures
            r == self.negated(),
            r@ == -self@,
            r.mantissa_of() == -self.mantissa_of(),
            r.scale_of() == self.scale_of(),
    {
        proof {
            use_type_invariant(self);
            self.lemma_negated();
        }
        Decimal { mantissa: -self.mantissa, scale: self.scale }
    }

    /// The absolute value, at the same scale.
    pub fn abs(&self) -> (r: Decimal)
        ensures
            r == self.magnitude(),
            r@ == (if self@ < 0 {
                -self@
            } else {
                self@
            }),
            r@ >= 0,
            r.scale_of() == self.scale_of(),
    {
        proof {
            self.lemma_sign();
        }
        if self.mantissa < 0 {
            self.neg()
        } else {
            *self
        }
    }

    /// Minus one, zero or one as the value is negative, zero or positive,
    /// with scale 0.
    pub fn signum(&self) -> (r: Decimal)
        ensures
            r == self.signum_of(),
            self@ < 0 ==> r@ == -pow10(28),
            self@ == 0 ==> r@ == 0,
            self@ > 0 ==> r@ == pow10(28),
            r.scale_of() == 0,
    {
        proof {
            self.lemma_sign();
            assert((-1) * pow10(28) == -pow10(28)) by (nonlinear_arith);
        }
        if self.mantissa < 0 {
            Decimal { mantissa: -1, scale: 0 }
        } else if self.mantissa == 0 {
            Decimal::zero()
        } else {
            Decimal::one()
        }
    }

    /// How many decimal digits the mantissa has, its sign and its leading
    /// zeros left aside; zero has none.
    pub fn significant_digits(&self) -> (n: u32)
        ensures
            self@ >= 0 ==> n == digit_count(self.mantissa_of() as nat),
            self@ < 0 ==> n == digit_count((-self.mantissa_of()) as nat),
            n <= 29,
    {
        proof {
            use_type_invariant(self);
            self.lemma_sign();
        }
        let mut rest: i128 = if self.mantissa < 0 {
            -self.mantissa
        } else {
            self.mantissa
        };
        let ghost start: nat = rest as nat;
        let mut n: u32 = 0;
        let ghost mut bound: int = 100_000_000_000_000_000_000_000_000_000;
        proof {
            reveal_with_fuel(pow10, 30);
        }
        while rest > 0
            invariant
                0 <= rest,
                n <= 29,
                rest < bound,
                bound == pow10((29 - n) as nat),
                n as nat + digit_count(rest as nat) == digit_count(start),
            decreases rest,
        {
            proof {
                assert(n < 29) by {
                    if n == 29 {
                        assert(pow10(0) == 1);
                    }
                }
                assert(pow10((29 - n) as nat) == 10 * pow10((29 - (n + 1)) as nat));
                bound = bound / 10;
            }
            rest = rest / 10;
            n = n + 1;
        }
        n
    }

    /// Whether `self` is below `rhs`.
    pub fn lt(&self, rhs: &Decimal) -> (b: bool)
        ensures
            b == (self@ < rhs@),
    {
        compare(*self, *rhs) < 0
    }

    /// Whether `self` is at most `rhs`.
    pub fn le(&self, rhs: &Decimal) -> (b: bool)
        ensures
            b == (self@ <= rhs@),
    {
        compare(*self, *rhs) <= 0
    }

    /// Whether `self` is above `rhs`.
    pub fn gt(&self, rhs: &Decimal) -> (b: bool)
        ensures
            b == (self@ > rhs@),
    {
        compare(*self, *rhs) > 0
    }

    /// Whether `self` is at least `rhs`.
    pub fn ge(&self, rhs: &Decimal) -> (b: bool)
        ensures
            b == (self@ >= rhs@),
    {
        compare(*self, *rhs) >= 0
    }

    /// The smaller of the two; `self` where they are equal in value.
    pub open spec fn least(self, rhs: Decimal) -> Decimal {
        if self@ <= rhs@ {
            self
        } else {
            rhs
        }
    }

    /// The larger of the two; `self` where they are equal in value.
    pub open spec fn greatest(self, rhs: Decimal) -> Decimal {
        if self@ < rhs@ {
            rhs
        } else {
            self
        }
    }

    /// `self` held between `low` and `high`.
    pub open spec fn clamped(self, low: Decimal, high: Decimal) -> Decimal {
        if self@ < low@ {
            low
        } else if self@ > high@ {
            high
        } else {
            self
        }
    }

    /// The largest whole number that is not above the decimal, at scale 0.
    pub open spec fn floored(self) -> Decimal {
        Decimal::of(self.mantissa_of() / pow10(self.scale_of()), 0)
    }

    /// The decimal cut to `places` fractional digits, the digits beyond them
    /// dropped; the decimal itself where it has no more than `places`.
    pub open spec fn truncated(self, places: nat) -> Decimal {
        if self.scale_of() <= places {
            self
        } else {
            Decimal::of(
                quotient_toward_zero(
                    self.mantissa_of(),
                    pow10((self.scale_of() - places) as nat),
                ),
                places,
            )
        }
    }

    /// The largest whole number that is not above the decimal.
    pub fn floor(&self) -> (r: Decimal)
        ensures
            r == self.floored(),
    {
        let r = floor(*self);
        proof {
            r.lemma_of_parts();
        }
        r
    }

    /// The decimal cut to `places` fractional digits, toward zero.
    pub fn trunc_with_scale(&self, places: u32) -> (r: Decimal)
        ensures
            r == self.truncated(places as nat),
    {
        let r = truncate(*self, places);
        proof {
            r.lemma_of_parts();
        }
        r
    }

    /// The same value without trailing zeros in its fraction; zero at scale
    /// 0.
    pub fn normalize(&self) -> (r: Decimal)
        ensures
            r@ == self@,
            r.scale_of() <= self.scale_of(),
            self@ == 0 ==> r.scale_of() == 0,
            r.scale_of() == 0 || r.mantissa_of() % 10 != 0,
    {
        proof {
            self.lemma_sign();
        }
        normalize(*self)
    }

    /// The decimal that a piece of text spells, or `None` where it spells
    /// none.
    pub fn from_str(text: &str) -> (r: Option<Decimal>)
        ensures
            r == Decimal::parsed(text@),
    {
        parse(text)
    }

    /// The smaller of the two; `self` where they are equal in value.
    pub fn min(self, rhs: Decimal) -> (r: Decimal)
        ensures
            r == self.least(rhs),
    {
        if compare(self, rhs) <= 0 {
            self
        } else {
            rhs
        }
    }

    /// The larger of the two; `self` where they are equal in value.
    pub fn max(self, rhs: Decimal) -> (r: Decimal)
        ensures
            r == self.greatest(rhs),
    {
        if compare(self, rhs) < 0 {
            rhs
        } else {
            self
        }
    }

    /// `self` held between `low` and `high`.
    pub fn clamp(self, low: Decimal, high: Decimal) -> (r: Decimal)
        requires
            low@ <= high@,
        ensures
            r == self.clamped(low, high),
    {
        if compare(self, low) < 0 {
            low
        } else if compare(self, high) > 0 {
            high
        } else {
            self
        }
    }

    /// The sum, or `None` on overflow.
    pub fn checked_add(self, rhs: Decimal) -> (r: Option<Decimal>)
        ensures
            r == self.plus(rhs),
    {
        sum(self, rhs)
    }

    /// The difference, or `None` on overflow.
    pub fn checked_sub(self, rhs: Decimal) -> (r: Option<Decimal>)
        ensures
            r == self.minus(rhs),
    {
        difference(self, rhs)
    }

    /// The product, or `None` on overflow.
    pub fn checked_mul(self, rhs: Decimal) -> (r: Option<Decimal>)
        ensures
            r == self.times(rhs),
    {
        product(self, rhs)
    }

    /// The quotient, or `None` on overflow or where `rhs` is zero.
    pub fn checked_div(self, rhs: Decimal) -> (r: Option<Decimal>)
        ensures
            r == self.over(rhs),
            rhs@ == 0 ==> r.is_none(),
    {
        proof {
            rhs.lemma_sign();
        }
        quotient(self, rhs)
    }
}

impl PartialEq for Decimal {
    /// Equality of value: `1.0` equals `1.00`.
    fn eq(&self, other: &Decimal) -> (r: bool) {
        compare(*self, *other) == 0
    }
}

impl vstd::std_specs::cmp::PartialEqSpecImpl for Decimal {
    open spec fn obeys_eq_spec() -> bool {
        true
    }

    open spec fn eq_spec(&self, other: &Decimal) -> bool {
        self@ == other@
    }
}

/// Calls `rust_decimal::Decimal::checked_add`. Trusted: the result is the one
/// named [`decimal_sum`], a function of the operands alone.
#[verifier::external_body]
pub(crate) fn sum(a: Decimal, b: Decimal) -> (r: Option<Decimal>)
    ensures
        r == Decimal::pack(
            decimal_sum(a.mantissa_of(), a.scale_of(), b.mantissa_of(), b.scale_of()),
        ),
{
    let x = rust_decimal::Decimal::from_i128_with_scale(a.mantissa, a.scale);
    let y = rust_decimal::Decimal::from_i128_with_scale(b.mantissa, b.scale);
    match x.checked_add(y) {
        Some(z) => Some(Decimal { mantissa: z.mantissa(), scale: z.scale() }),
        None => None,
    }
}

/// Calls `rust_decimal::Decimal::checked_sub`. Trusted: the result is the one
/// named [`decimal_difference`], a function of the operands alone.
#[verifier::external_body]
pub(crate) fn difference(a: Decimal, b: Decimal) -> (r: Option<Decimal>)
    ensures
        r == Decimal::pack(
            decimal_difference(a.mantissa_of(), a.scale_of(), b.mantissa_of(), b.scale_of()),
        ),
{
    let x = rust_decimal::Decimal::from_i128_with_scale(a.mantissa, a.scale);
    let y = rust_decimal::Decimal::from_i128_with_scale(b.mantissa, b.scale);
    match x.checked_sub(y) {
        Some(z) => Some(Decimal { mantissa: z.mantissa(), scale: z.scale() }),
        None => None,
    }
}

/// Calls `rust_decimal::Decimal::checked_mul`. Trusted: the result is the one
/// named [`decimal_product`], a function of the operands alone.
#[verifier::external_body]
pub(crate) fn product(a: Decimal, b: Decimal) -> (r: Option<Decimal>)
    ensures
        r == Decimal::pack(
            decimal_product(a.mantissa_of(), a.scale_of(), b.mantissa_of(), b.scale_of()),
        ),
{
    let x = rust_decimal::Decimal::from_i128_with_scale(a.mantissa, a.scale);
    let y = rust_decimal::Decimal::from_i128_with_scale(b.mantissa, b.scale);
    match x.checked_mul(y) {
        Some(z) => Some(Decimal { mantissa: z.mantissa(), scale: z.scale() }),
        None => None,
    }
}

/// Calls `rust_decimal::Decimal::checked_div`. Trusted: division by zero gives
/// `None`; any other result is the one named [`decimal_quotient`], a function
/// of the operands alone.
#[verifier::external_body]
pub(crate) fn quotient(a: Decimal, b: Decimal) -> (r: Option<Decimal>)
    ensures
        b.mantissa_of() == 0 ==> r.is_none(),
        b.mantissa_of() != 0 ==> r == Decimal::pack(
            decimal_quotient(a.mantissa_of(), a.scale_of(), b.mantissa_of(), b.scale_of()),
        ),
{
    let x = rust_decimal::Decimal::from_i128_with_scale(a.mantissa, a.scale);
    let y = rust_decimal::Decimal::from_i128_with_scale(b.mantissa, b.scale);
    match x.checked_div(y) {
        Some(z) => Some(Decimal { mantissa: z.mantissa(), scale: z.scale() }),
        None => None,
    }
}

/// Calls `rust_decimal`'s `Ord::cmp`. Trusted: decimals are ordered by value,
/// whatever their scales, and the result is -1, 0 or 1 as `a` is below, equal
/// to or above `b`.
#[verifier::external_body]
pub(crate) fn compare(a: Decimal, b: Decimal) -> (r: i8)
    ensures
        a@ < b@ ==> r == -1,
        a@ == b@ ==> r == 0,
        a@ > b@ ==> r == 1,
{
    let x = rust_decimal::Decimal::from_i128_with_scale(a.mantissa, a.scale);
    let y = rust_decimal::Decimal::from_i128_with_scale(b.mantissa, b.scale);
    match x.cmp(&y) {
        Ordering::Less => -1,
        Ordering::Equal => 0,
        Ordering::Greater => 1,
    }
}

/// Calls `rust_decimal::Decimal::floor`. Trusted: the result is the largest
/// whole number that is not above `a`, carried at scale 0.
#[verifier::external_body]
pub(crate) fn floor(a: Decimal) -> (r: Decimal)
    ensures
        r.scale_of() == 0,
        r.mantissa_of() == a.mantissa_of() / pow10(a.scale_of()),
{
    let z = rust_decimal::Decimal::from_i128_with_scale(a.mantissa, a.scale).floor();
    Decimal { mantissa: z.mantissa(), scale: z.scale() }
}

/// Calls `rust_decimal::Decimal::round_dp_with_strategy` with
/// `RoundingStrategy::ToZero`. Trusted: a decimal with at most `places`
/// fractional digits comes back as it is; any other is cut to `places` digits,
/// the digits beyond them dropped.
#[verifier::external_body]
pub(crate) fn truncate(a: Decimal, places: u32) -> (r: Decimal)
    ensures
        a.scale_of() <= places ==> r == a,
        a.scale_of() > places ==> r.scale_of() == places && r.mantissa_of()
            == quotient_toward_zero(
            a.mantissa_of(),
            pow10((a.scale_of() - places) as nat),
        ),
{
    let x = rust_decimal::Decimal::from_i128_with_scale(a.mantissa, a.scale);
    let z = x.round_dp_with_strategy(places, rust_decimal::RoundingStrategy::ToZero);
    Decimal { mantissa: z.mantissa(), scale: z.scale() }
}

/// Calls `rust_decimal::Decimal::normalize`. Trusted: the value is kept, zero
/// comes back at scale 0, and any other decimal at the smallest scale that
/// still holds it, its trailing zeros stripped.
#[verifier::external_body]
pub(crate) fn normalize(a: Decimal) -> (r: Decimal)
    ensures
        r@ == a@,
        r.scale_of() <= a.scale_of(),
        a.mantissa_of() == 0 ==> r.scale_of() == 0,
        r.scale_of() == 0 || r.mantissa_of() % 10 != 0,
{
    let z = rust_decimal::Decimal::from_i128_with_scale(a.mantissa, a.scale).normalize();
    Decimal { mantissa: z.mantissa(), scale: z.scale() }
}

/// Calls `rust_decimal`'s `FromStr::from_str`, through `str::parse`. Trusted: the result is the one
/// named [`decimal_parsed`], a function of the text alone.
#[verifier::external_body]
pub(crate) fn parse(text: &str) -> (r: Option<Decimal>)
    ensures
        r == Decimal::pack(decimal_parsed(text@)),
{
    match text.parse::<rust_decimal::Decimal>() {
        Ok(z) => Some(Decimal { mantissa: z.mantissa(), scale: z.scale() }),
        Err(_) => None,
    }
}

} // verus!
