//! Decimal amounts: a signed 96-bit mantissa and a scale between 0 and 28.
//!
//! [`AmountView`] is the mathematical model, on which sums, differences and
//! rounding are defined. [`Amount`] is the value that the engine stores; its
//! arithmetic is done by `rust_decimal`.

use vstd::prelude::*;
use vstd::std_specs::cmp::PartialEqSpecImpl;

verus! {

/// The largest number of fractional digits an [`Amount`] can carry.
pub const MAX_SCALE: u32 = 28;

/// The largest magnitude of a mantissa: `2^96 - 1`.
pub const MAX_MANTISSA: i128 = 79_228_162_514_264_337_593_543_950_335;

/// Ten to the power `e`.
pub open spec fn pow10(e: nat) -> int
    decreases e,
{
    if e == 0 {
        1
    } else {
        10 * pow10((e - 1) as nat)
    }
}

/// Whether a mantissa fits in 96 bits.
pub open spec fn fits(mantissa: int) -> bool {
    -MAX_MANTISSA <= mantissa <= MAX_MANTISSA
}

/// `n / unit`, rounded to the nearest integer; a tie goes to the even one.
pub open spec fn round_half_even(n: nat, unit: int) -> int
    recommends
        unit > 0,
{
    let quotient = n as int / unit;
    let rest = n as int % unit;
    if 2 * rest > unit || (2 * rest == unit && quotient % 2 == 1) {
        quotient + 1
    } else {
        quotient
    }
}

/// The decimal number `mantissa / 10^scale`.
pub struct AmountView {
    pub mantissa: int,
    pub scale: nat,
}

impl AmountView {
    /// A 96-bit decimal can hold the number as it is written.
    pub open spec fn wf(self) -> bool {
        self.scale <= MAX_SCALE && fits(self.mantissa)
    }

    /// Nothing, written without fractional digits.
    pub open spec fn zero() -> AmountView {
        AmountView { mantissa: 0, scale: 0 }
    }

    /// The number in units of `10^-28`: two amounts are the same number
    /// exactly when their units are equal.
    pub open spec fn units(self) -> int {
        self.mantissa * pow10((MAX_SCALE - self.scale) as nat)
    }

    /// The mantissa that writes the number with `scale` fractional digits.
    pub open spec fn aligned(self, scale: nat) -> int
        recommends
            self.scale <= scale,
    {
        self.mantissa * pow10((scale - self.scale) as nat)
    }

    /// The number with its sign turned.
    pub open spec fn negated(self) -> AmountView {
        AmountView { mantissa: -self.mantissa, scale: self.scale }
    }

    /// The larger of the two scales.
    pub open spec fn common_scale(self, other: AmountView) -> nat {
        if self.scale >= other.scale {
            self.scale
        } else {
            other.scale
        }
    }

    /// The sum needs no rounding: written with the larger of the two scales,
    /// both numbers and their sum fit in 96 bits.
    pub open spec fn adds_exactly(self, other: AmountView) -> bool {
        let scale = self.common_scale(other);
        ||| self.mantissa == 0
        ||| other.mantissa == 0
        ||| {
            &&& fits(self.aligned(scale))
            &&& fits(other.aligned(scale))
            &&& fits(self.aligned(scale) + other.aligned(scale))
        }
    }

    /// The sum, where [`adds_exactly`](Self::adds_exactly) holds. Adding zero
    /// leaves the other number as it is written.
    pub open spec fn plus(self, other: AmountView) -> AmountView {
        let scale = self.common_scale(other);
        if self.mantissa == 0 {
            other
        } else if other.mantissa == 0 {
            self
        } else {
            AmountView { mantissa: self.aligned(scale) + other.aligned(scale), scale }
        }
    }

    /// The difference needs no rounding.
    pub open spec fn subtracts_exactly(self, other: AmountView) -> bool {
        self.adds_exactly(other.negated())
    }

    /// The difference, where
    /// [`subtracts_exactly`](Self::subtracts_exactly) holds: the sum of this
    /// number and the negated other.
    pub open spec fn minus(self, other: AmountView) -> AmountView {
        self.plus(other.negated())
    }

    /// The number rounded to `dp` fractional digits, half to even. A number
    /// with no more than `dp` digits is left as it is written.
    pub open spec fn round(self, dp: nat) -> AmountView {
        if self.scale <= dp {
            self
        } else {
            let unit = pow10((self.scale - dp) as nat);
            if self.mantissa >= 0 {
                AmountView { mantissa: round_half_even(self.mantissa as nat, unit), scale: dp }
            } else {
                AmountView { mantissa: -round_half_even((-self.mantissa) as nat, unit), scale: dp }
            }
        }
    }
}

/// A decimal number as the engine stores it.
#[derive(Clone, Copy, Debug)]
pub struct Amount {
    mantissa: i128,
    scale: u32,
}

impl View for Amount {
    type V = AmountView;

    closed spec fn view(&self) -> AmountView {
        AmountView { mantissa: self.mantissa as int, scale: self.scale as nat }
    }
}

impl Amount {
    /// Every amount fits a 96-bit decimal.
    #[verifier::type_invariant]
    pub open spec fn inv(self) -> bool {
        self@.wf()
    }

    /// The amount `mantissa / 10^scale`, if a 96-bit decimal can hold it.
    pub fn new(mantissa: i128, scale: u32) -> (r: Option<Amount>)
        ensures
            r is Some <==> scale <= MAX_SCALE && fits(mantissa as int),
            r matches Some(a) ==> a@ == (AmountView { mantissa: mantissa as int, scale: scale as nat }),
    {
        if scale <= MAX_SCALE && -MAX_MANTISSA <= mantissa && mantissa <= MAX_MANTISSA {
            Some(Amount { mantissa, scale })
        } else {
            None
        }
    }

    /// Nothing.
    pub fn zero() -> (r: Amount)
        ensures
            r@ == AmountView::zero(),
    {
        Amount { mantissa: 0, scale: 0 }
    }

    /// The digits of the number, as an integer.
    pub fn mantissa(&self) -> (r: i128)
        ensures
            r == self@.mantissa,
            fits(r as int),
    {
        proof {
            use_type_invariant(self);
        }
        self.mantissa
    }

    /// How many of the digits stand behind the decimal point.
    pub fn scale(&self) -> (r: u32)
        ensures
            r == self@.scale,
            r <= MAX_SCALE,
    {
        proof {
            use_type_invariant(self);
        }
        self.scale
    }

    /// Whether this number is smaller than `other`.
    pub fn lt(&self, other: &Amount) -> (r: bool)
        ensures
            r == (self@.units() < other@.units()),
    {
        decimal_lt(*self, *other)
    }

    /// The sum of the two numbers.
    pub fn plus(self, other: Amount) -> (r: Amount)
        requires
            self@.adds_exactly(other@),
        ensures
            r@ == self@.plus(other@),
    {
        decimal_add(self, other)
    }

    /// The difference of the two numbers.
    pub fn minus(self, other: Amount) -> (r: Amount)
        requires
            self@.subtracts_exactly(other@),
        ensures
            r@ == self@.minus(other@),
    {
        decimal_sub(self, other)
    }

    /// The number rounded to `dp` fractional digits, half to even.
    pub fn round_dp(self, dp: u32) -> (r: Amount)
        ensures
            r@ == self@.round(dp as nat),
    {
        decimal_round_dp(self, dp)
    }

    /// The number with its sign turned.
    pub fn negated(self) -> (r: Amount)
        ensures
            r@ == self@.negated(),
    {
        proof {
            use_type_invariant(self);
        }
        Amount { mantissa: -self.mantissa, scale: self.scale }
    }

    /// The mantissa that writes the number with `scale` fractional digits,
    /// if it fits in 96 bits.
    fn aligned(&self, scale: u32) -> (r: Option<i128>)
        requires
            self@.scale <= scale <= MAX_SCALE,
        ensures
            r is Some <==> fits(self@.aligned(scale as nat)),
            r matches Some(m) ==> m == self@.aligned(scale as nat),
    {
        proof {
            use_type_invariant(self);
        }
        let power = power_of_ten(scale - self.scale);
        match self.mantissa.checked_mul(power) {
            Some(m) => if -MAX_MANTISSA <= m && m <= MAX_MANTISSA {
                Some(m)
            } else {
                None
            },
            None => None,
        }
    }

    /// Whether the sum of the two numbers needs no rounding.
    pub fn can_add(&self, other: &Amount) -> (r: bool)
        ensures
            r == self@.adds_exactly(other@),
    {
        proof {
            use_type_invariant(self);
            use_type_invariant(other);
        }
        if self.mantissa == 0 || other.mantissa == 0 {
            return true;
        }
        let scale = if self.scale >= other.scale {
            self.scale
        } else {
            other.scale
        };
        match (self.aligned(scale), other.aligned(scale)) {
            (Some(a), Some(b)) => -MAX_MANTISSA <= a + b && a + b <= MAX_MANTISSA,
            _ => false,
        }
    }

    /// Whether the difference of the two numbers needs no rounding.
    pub fn can_subtract(&self, other: &Amount) -> (r: bool)
        ensures
            r == self@.subtracts_exactly(other@),
    {
        self.can_add(&other.negated())
    }
}

/// Ten to the power `e`.
fn power_of_ten(e: u32) -> (r: i128)
    requires
        e <= MAX_SCALE,
    ensures
        r == pow10(e as nat),
{
    let mut r: i128 = 1;
    let mut i: u32 = 0;
    while i < e
        invariant
            i <= e <= MAX_SCALE,
            r == pow10(i as nat),
        decreases e - i,
    {
        proof {
            lemma_pow10_bound(i as nat);
        }
        r = r * 10;
        i = i + 1;
    }
    r
}

/// A power of ten with an exponent up to 28 is positive and at most `10^28`.
pub proof fn lemma_pow10_bound(e: nat)
    requires
        e <= MAX_SCALE,
    ensures
        1 <= pow10(e) <= 10_000_000_000_000_000_000_000_000_000,
        e < MAX_SCALE ==> pow10(e) <= 1_000_000_000_000_000_000_000_000_000,
    decreases MAX_SCALE - e,
{
    if e == MAX_SCALE {
        reveal_with_fuel(pow10, 29);
    } else {
        lemma_pow10_bound(e + 1);
    }
}

/// A number is worth more than nothing exactly when its mantissa is
/// positive.
pub proof fn lemma_sign(a: AmountView)
    requires
        a.wf(),
    ensures
        a.units() > 0 <==> a.mantissa > 0,
        a.units() == 0 <==> a.mantissa == 0,
        AmountView::zero().units() == 0,
{
    let power = pow10((MAX_SCALE - a.scale) as nat);
    lemma_pow10_adds((MAX_SCALE - a.scale) as nat, 0);
    assert((a.mantissa * power > 0 <==> a.mantissa > 0) && (a.mantissa * power == 0
        <==> a.mantissa == 0)) by (nonlinear_arith)
        requires
            power > 0,
    ;
}

/// Powers of ten multiply as their exponents add.
pub proof fn lemma_pow10_adds(a: nat, b: nat)
    ensures
        pow10(a + b) == pow10(a) * pow10(b),
        pow10(a) > 0,
    decreases a,
{
    if a == 0 {
        assert(pow10(0 + b) == 1 * pow10(b));
    } else {
        lemma_pow10_adds((a - 1) as nat, b);
        assert(pow10(a + b) == 10 * pow10((a + b - 1) as nat));
        assert(10 * (pow10((a - 1) as nat) * pow10(b)) == (10 * pow10((a - 1) as nat)) * pow10(b))
            by (nonlinear_arith);
    }
}

/// Writing a number with more digits does not change what it is worth.
pub proof fn lemma_aligned_units(a: AmountView, scale: nat)
    requires
        a.scale <= scale <= MAX_SCALE,
    ensures
        a.aligned(scale) * pow10((MAX_SCALE - scale) as nat) == a.units(),
{
    let up = (scale - a.scale) as nat;
    let rest = (MAX_SCALE - scale) as nat;
    lemma_pow10_adds(up, rest);
    assert(a.mantissa * pow10(up) * pow10(rest) == a.mantissa * (pow10(up) * pow10(rest)))
        by (nonlinear_arith);
}

/// Where a sum is exact, it is worth what the two numbers are worth together,
/// and it is written with no more digits than the longer of them.
pub proof fn lemma_plus_exact(a: AmountView, b: AmountView)
    requires
        a.wf(),
        b.wf(),
        a.adds_exactly(b),
    ensures
        a.plus(b).wf(),
        a.plus(b).units() == a.units() + b.units(),
        a.plus(b).scale <= a.common_scale(b),
{
    let scale = a.common_scale(b);
    let rest = (MAX_SCALE - scale) as nat;
    if a.mantissa == 0 {
        assert(a.units() == 0);
    } else if b.mantissa == 0 {
        assert(b.units() == 0);
    } else {
        lemma_aligned_units(a, scale);
        lemma_aligned_units(b, scale);
        assert((a.aligned(scale) + b.aligned(scale)) * pow10(rest) == a.aligned(scale) * pow10(rest)
            + b.aligned(scale) * pow10(rest)) by (nonlinear_arith);
    }
}

/// Where a difference is exact, it is worth the first number less the second.
pub proof fn lemma_minus_exact(a: AmountView, b: AmountView)
    requires
        a.wf(),
        b.wf(),
        a.subtracts_exactly(b),
    ensures
        a.minus(b).wf(),
        a.minus(b).units() == a.units() - b.units(),
        a.minus(b).scale <= a.common_scale(b),
{
    lemma_plus_exact(a, b.negated());
    assert((-b.mantissa) * pow10((MAX_SCALE - b.scale) as nat) == -(b.mantissa * pow10(
        (MAX_SCALE - b.scale) as nat,
    ))) by (nonlinear_arith);
}

/// Rounding keeps a number within 96 bits, cuts it to `dp` digits where it
/// had more, and moves it by half a unit of the last digit at most.
pub proof fn lemma_round(a: AmountView, dp: nat)
    requires
        a.wf(),
    ensures
        a.round(dp).wf(),
        a.round(dp).scale == if a.scale <= dp { a.scale } else { dp },
        a.scale <= dp ==> a.round(dp) == a,
        dp <= MAX_SCALE ==> -pow10((MAX_SCALE - dp) as nat) <= 2 * (a.round(dp).units() - a.units())
            <= pow10((MAX_SCALE - dp) as nat),
{
    if a.scale <= dp {
        if dp <= MAX_SCALE {
            lemma_pow10_adds((MAX_SCALE - dp) as nat, 0);
        }
    } else {
        let cut = (a.scale - dp) as nat;
        let unit = pow10(cut);
        let rest = pow10((MAX_SCALE - a.scale) as nat);
        lemma_pow10_adds(cut, (MAX_SCALE - a.scale) as nat);
        lemma_pow10_adds((cut - 1) as nat, 0);
        lemma_pow10_adds((MAX_SCALE - a.scale) as nat, 0);
        assert(unit >= 10);
        assert(pow10((MAX_SCALE - dp) as nat) == unit * rest);
        let n: int = if a.mantissa >= 0 { a.mantissa } else { -a.mantissa };
        let q = n / unit;
        let r = n % unit;
        let rounded = round_half_even(n as nat, unit);
        assert(n == q * unit + r && 0 <= r < unit && 0 <= q <= n) by (nonlinear_arith)
            requires
                n >= 0,
                unit >= 10,
                q == n / unit,
                r == n % unit,
        ;
        assert(rounded == q || rounded == q + 1);
        assert(0 <= rounded <= n) by (nonlinear_arith)
            requires
                n == q * unit + r,
                0 <= r < unit,
                unit >= 10,
                q >= 0,
                rounded == q || (rounded == q + 1 && 2 * r >= unit),
        ;
        assert(-unit <= 2 * (rounded * unit - n) <= unit) by (nonlinear_arith)
            requires
                n == q * unit + r,
                0 <= r < unit,
                (rounded == q && 2 * r <= unit) || (rounded == q + 1 && 2 * r >= unit),
        ;
        let d = rounded * unit - n;
        assert(-(unit * rest) <= 2 * (d * rest) <= unit * rest) by (nonlinear_arith)
            requires
                -unit <= 2 * d <= unit,
                rest > 0,
        ;
        if a.mantissa >= 0 {
            assert(a.round(dp).units() - a.units() == d * rest) by (nonlinear_arith)
                requires
                    a.round(dp).units() == rounded * (unit * rest),
                    a.units() == n * rest,
                    d == rounded * unit - n,
            ;
        } else {
            assert(a.round(dp).units() - a.units() == -(d * rest)) by (nonlinear_arith)
                requires
                    a.round(dp).units() == (-rounded) * (unit * rest),
                    a.units() == (-n) * rest,
                    d == rounded * unit - n,
            ;
        }
    }
}

impl PartialEq for Amount {
    /// Two amounts are equal when they are the same number: `1.0 == 1.00`.
    fn eq(&self, other: &Amount) -> (r: bool) {
        decimal_eq(*self, *other)
    }
}

impl PartialEqSpecImpl for Amount {
    open spec fn obeys_eq_spec() -> bool {
        true
    }

    open spec fn eq_spec(&self, other: &Amount) -> bool {
        self@.units() == other@.units()
    }
}

/// `Decimal`'s `<`: it compares the two numbers by value, whatever their
/// scales.
#[verifier::external_body]
fn decimal_lt(a: Amount, b: Amount) -> (r: bool)
    ensures
        r == (a@.units() < b@.units()),
{
    let x = rust_decimal::Decimal::from_i128_with_scale(a.mantissa, a.scale);
    let y = rust_decimal::Decimal::from_i128_with_scale(b.mantissa, b.scale);
    x < y
}

/// `Decimal`'s `==`: it holds when the two numbers have the same value,
/// whatever their scales.
#[verifier::external_body]
fn decimal_eq(a: Amount, b: Amount) -> (r: bool)
    ensures
        r == (a@.units() == b@.units()),
{
    let x = rust_decimal::Decimal::from_i128_with_scale(a.mantissa, a.scale);
    let y = rust_decimal::Decimal::from_i128_with_scale(b.mantissa, b.scale);
    x == y
}

/// `Decimal`'s `+`. Where one operand is zero it returns the other one
/// unchanged. Otherwise it brings both to the larger scale and adds the
/// mantissas; as long as all three fit in 96 bits nothing is rounded and the
/// result keeps that scale.
#[verifier::external_body]
fn decimal_add(a: Amount, b: Amount) -> (r: Amount)
    requires
        a@.adds_exactly(b@),
    ensures
        r@ == a@.plus(b@),
{
    let x = rust_decimal::Decimal::from_i128_with_scale(a.mantissa, a.scale);
    let y = rust_decimal::Decimal::from_i128_with_scale(b.mantissa, b.scale);
    let z = x + y;
    Amount { mantissa: z.mantissa(), scale: z.scale() }
}

/// `Decimal`'s `-`: the sum of the first operand and the negated second one,
/// under the same condition as `+`.
#[verifier::external_body]
fn decimal_sub(a: Amount, b: Amount) -> (r: Amount)
    requires
        a@.subtracts_exactly(b@),
    ensures
        r@ == a@.minus(b@),
{
    let x = rust_decimal::Decimal::from_i128_with_scale(a.mantissa, a.scale);
    let y = rust_decimal::Decimal::from_i128_with_scale(b.mantissa, b.scale);
    let z = x - y;
    Amount { mantissa: z.mantissa(), scale: z.scale() }
}

/// `Decimal::round_dp`: a number with more than `dp` fractional digits is cut
/// to `dp` digits, its magnitude rounded half to even; any other number is
/// returned unchanged.
#[verifier::external_body]
fn decimal_round_dp(a: Amount, dp: u32) -> (r: Amount)
    ensures
        r@ == a@.round(dp as nat),
{
    let x = rust_decimal::Decimal::from_i128_with_scale(a.mantissa, a.scale);
    let z = x.round_dp(dp);
    Amount { mantissa: z.mantissa(), scale: z.scale() }
}

} // verus!
