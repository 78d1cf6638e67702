//! An exact decimal number, stored as an integer count of billionths.
//!
//! Monetary amounts and product quantities are decimal values in the
//! surrounding system; binary floating point cannot represent them exactly,
//! so the engine works on a fixed-point representation instead: a value is
//! an `i128` mantissa denoting `mantissa / 10^9`. Nine fractional digits
//! cover prices (two digits), measured quantities, and the resolution used
//! for discount fractions.
//!
//! The view of a [`Decimal`] is its mantissa as an `int`; every contract in
//! the crate speaks of mantissas.

use vstd::prelude::*;

verus! {

/// Number of units in the mantissa per whole one: `10^9`.
pub const SCALE: i128 = 1_000_000_000;

/// An exact decimal number: the value `mantissa / 10^9`.
#[derive(Clone, Copy, Debug, PartialEq, Eq, Hash, Structural)]
pub struct Decimal {
    /// The value multiplied by `10^9`.
    units: i128,
}

impl View for Decimal {
    type V = int;

    closed spec fn view(&self) -> int {
        self.units as int
    }
}

impl Decimal {
    /// The value `0`.
    pub fn zero() -> (r: Self)
        ensures
            r@ == 0,
    {
        Decimal { units: 0 }
    }

    /// The value `1`.
    pub fn one() -> (r: Self)
        ensures
            r@ == SCALE,
    {
        Decimal { units: SCALE }
    }

    /// The integer `i` as a decimal.
    pub fn from_int(i: i64) -> (r: Self)
        ensures
            r@ == i * SCALE,
    {
        Decimal { units: (i as i128) * SCALE }
    }

    /// The value `mantissa / 10^scale`, for a mantissa written with `scale`
    /// fractional digits; `from_scaled(250, 2)` is `2.50`.
    pub fn from_scaled(mantissa: i64, scale: u32) -> (r: Self)
        requires
            scale <= 9,
        ensures
            r@ == mantissa * pow10((9 - scale) as nat),
    {
        let factor: i128 = pow10_exec(9 - scale);
        proof {
            lemma_pow10_bounds((9 - scale) as nat);
            assert((mantissa as i128) * factor <= i128::MAX && i128::MIN <= (mantissa as i128)
                * factor) by (nonlinear_arith)
                requires
                    0 < factor <= 1_000_000_000,
                    i64::MIN <= mantissa <= i64::MAX,
            ;
        }
        Decimal { units: (mantissa as i128) * factor }
    }

    /// The value with the given raw mantissa, `units / 10^9`.
    pub(crate) fn from_units(units: i128) -> (r: Self)
        ensures
            r@ == units,
    {
        Decimal { units }
    }

    /// The raw mantissa: the value multiplied by `10^9`.
    pub fn mantissa(&self) -> (r: i128)
        ensures
            r == self@,
    {
        self.units
    }

    /// Whether the value is strictly less than `other`.
    pub fn lt(&self, other: &Self) -> (r: bool)
        ensures
            r == (self@ < other@),
    {
        self.units < other.units
    }

    /// Whether the value is less than or equal to `other`.
    pub fn le(&self, other: &Self) -> (r: bool)
        ensures
            r == (self@ <= other@),
    {
        self.units <= other.units
    }

    /// Whether the value is an integer, i.e. has no fractional part.
    pub fn is_integer(&self) -> (r: bool)
        requires
            self@ >= 0,
        ensures
            r == (self@ % (SCALE as int) == 0),
    {
        self.units % SCALE == 0
    }

    /// The sum `self + other`.
    pub fn add(self, other: Self) -> (r: Self)
        requires
            i128::MIN <= self@ + other@ <= i128::MAX,
        ensures
            r@ == self@ + other@,
    {
        Decimal { units: self.units + other.units }
    }

    /// The difference `self - other`.
    pub fn sub(self, other: Self) -> (r: Self)
        requires
            i128::MIN <= self@ - other@ <= i128::MAX,
        ensures
            r@ == self@ - other@,
    {
        Decimal { units: self.units - other.units }
    }

    /// The product `self * n` for an integer count `n`.
    pub fn mul_int(self, n: u32) -> (r: Self)
        requires
            i128::MIN <= self@ * n <= i128::MAX,
        ensures
            r@ == self@ * n,
    {
        Decimal { units: self.units * (n as i128) }
    }

    /// The quotient `self / other`, truncated to nine fractional digits:
    /// the result's mantissa is `(self@ * 10^9) / other@`, rounded toward
    /// zero (both operands must be non-negative, the divisor positive).
    pub fn div(self, other: Self) -> (r: Self)
        requires
            self@ >= 0,
            other@ > 0,
            self@ * SCALE <= i128::MAX,
        ensures
            r@ == (self@ * SCALE) / other@,
            0 <= r@ <= self@ * SCALE,
    {
        let num: u128 = (self.units as u128) * (SCALE as u128);
        let q: u128 = num / (other.units as u128);
        proof {
            assert(q <= num) by (nonlinear_arith)
                requires
                    q == num / (other.units as u128),
                    other.units as u128 >= 1,
            ;
            assert(num == self@ * SCALE);
            assert(q == (self@ * SCALE) / (other@ as int)) by (nonlinear_arith)
                requires
                    q == num / (other.units as u128),
                    num == self@ * SCALE,
                    self@ >= 0,
                    other@ > 0,
                    num == num as int,
                    other.units as u128 == other@,
            ;
        }
        Decimal { units: q as i128 }
    }
}

/// `10^e`, as a mathematical integer.
pub open spec fn pow10(e: nat) -> int
    decreases e,
{
    if e == 0 {
        1
    } else {
        10 * pow10((e - 1) as nat)
    }
}

/// `10^e` for `e <= 9`, executable.
fn pow10_exec(e: u32) -> (r: i128)
    requires
        e <= 9,
    ensures
        r == pow10(e as nat),
{
    let mut r: i128 = 1;
    let mut i: u32 = 0;
    while i < e
        invariant
            i <= e <= 9,
            r == pow10(i as nat),
        decreases e - i,
    {
        proof {
            lemma_pow10_bounds(i as nat);
        }
        r = r * 10;
        i = i + 1;
    }
    r
}

/// `10^e` is positive.
proof fn lemma_pow10_pos(e: nat)
    ensures
        pow10(e) >= 1,
    decreases e,
{
    if e > 0 {
        lemma_pow10_pos((e - 1) as nat);
    }
}

/// `10^e` grows with the exponent.
proof fn lemma_pow10_mono(a: nat, b: nat)
    requires
        a <= b,
    ensures
        pow10(a) <= pow10(b),
    decreases b,
{
    if a < b {
        lemma_pow10_mono(a, (b - 1) as nat);
        lemma_pow10_pos((b - 1) as nat);
    }
}

/// `10^e` stays within `1 ..= 10^9` for `e <= 9`.
proof fn lemma_pow10_bounds(e: nat)
    requires
        e <= 9,
    ensures
        1 <= pow10(e) <= 1_000_000_000,
{
    lemma_pow10_pos(e);
    lemma_pow10_mono(e, 9);
    assert(pow10(9) == 1_000_000_000) by {
        reveal_with_fuel(pow10, 10);
    }
}

} // verus!
