//! The discount model behind special offers.
//!
//! A [`Deal`] is one of three promotion shapes: a flat sale price, a
//! "take N pay for M" batch, or a "take N pay X" batch price. A deal is
//! only accepted when it yields a strictly positive saving against the
//! product's base price; storage uses a flat three-column representation
//! that [`Deal::try_from_repr`] reads and [`Deal::database_repr`] writes.

use crate::decimal::{Decimal, SCALE};
use vstd::arithmetic::div_mod::lemma_fundamental_div_mod;
use vstd::prelude::*;

verus! {

/// Largest mantissa the pricing functions accept for a price or pay amount,
/// `10^27` (the value `10^18`); keeps every intermediate product within
/// `i128`. Stored prices are far below this.
pub const PRICE_LIMIT: i128 = 1_000_000_000_000_000_000_000_000_000;

/// Details on the discount of a special offer.
///
/// A value of this type is meant to be validated against a base price (see
/// [`Deal::gives_discount`]); construction from storage enforces that.
#[derive(Clone, Copy, Debug, PartialEq, Eq, Structural)]
pub enum Deal {
    /// The price has been reduced.
    Discount {
        /// The new price of the product.
        new_price: Decimal,
    },
    /// A "take N pay for M" deal.
    Batch {
        /// N; how many products to take.
        take: u32,
        /// M; how many products to pay for.
        pay_for: u32,
    },
    /// A "take N pay X" deal.
    BatchPrice {
        /// N; how many products to take.
        take: u32,
        /// X; how much to pay.
        pay: Decimal,
    },
}

/// Errors created by methods of [`Deal`].
#[derive(Clone, Copy, Debug, PartialEq, Eq, Structural)]
pub enum DealError {
    /// The provided base price was not positive.
    ZeroPrice,
    /// The new price or a quantity was non-positive. The new price may be 0
    /// only if both quantities are absent.
    OutOfRange,
    /// The arguments did not represent a valid type of special offer.
    InvalidVariant,
    /// The deal did not result in a discount.
    NoDiscount,
}

impl DealError {
    /// A short description of the error, for reporting to the offer author.
    pub fn message(&self) -> (r: &'static str)
        ensures
            r@.len() > 0,
    {
        proof {
            reveal_strlit("Base price must be positive.");
            reveal_strlit("New price and quantities must be positive.");
            reveal_strlit("Invalid type of special offer.");
            reveal_strlit("Special offer does not provide discount.");
        }
        match self {
            DealError::ZeroPrice => "Base price must be positive.",
            DealError::OutOfRange => "New price and quantities must be positive.",
            DealError::InvalidVariant => "Invalid type of special offer.",
            DealError::NoDiscount => "Special offer does not provide discount.",
        }
    }
}

/// What construction from the flat storage columns yields: the deal (or its
/// absence when all columns are null), or the error that rejects the tuple.
///
/// The base price must be positive; prices and quantities must be positive
/// (a new price alone may be zero, for free samples); the shape must be one
/// of the three known ones; and the resolved deal must actually discount.
/// A "take 1 pay X" offer collapses into the flat sale price `X`, so
/// equivalent offers have one canonical form.
pub open spec fn repr_deal(
    new_price: Option<Decimal>,
    quantity1: Option<i32>,
    quantity2: Option<i32>,
    base_price: Decimal,
) -> Result<Option<Deal>, DealError> {
    if base_price@ <= 0 {
        Err(DealError::ZeroPrice)
    } else {
        match (new_price, quantity1, quantity2) {
            (Some(np), None, None) => {
                if np@ < 0 {
                    Err(DealError::OutOfRange)
                } else if np@ >= base_price@ {
                    Err(DealError::NoDiscount)
                } else {
                    Ok(Some(Deal::Discount { new_price: np }))
                }
            },
            (None, Some(take), Some(pay_for)) => {
                if take <= 0 || pay_for <= 0 {
                    Err(DealError::OutOfRange)
                } else if take <= pay_for {
                    Err(DealError::NoDiscount)
                } else {
                    Ok(Some(Deal::Batch { take: take as u32, pay_for: pay_for as u32 }))
                }
            },
            (Some(pay), Some(take), None) => {
                if pay@ <= 0 || take <= 0 {
                    Err(DealError::OutOfRange)
                } else if pay@ * take >= base_price@ {
                    Err(DealError::NoDiscount)
                } else if take == 1 {
                    Ok(Some(Deal::Discount { new_price: pay }))
                } else {
                    Ok(Some(Deal::BatchPrice { take: take as u32, pay }))
                }
            },
            (None, None, None) => Ok(None),
            _ => Err(DealError::InvalidVariant),
        }
    }
}

impl Deal {
    /// Structural validity: quantities positive, a batch pays for fewer than
    /// it takes, prices non-negative (a batch pay amount strictly positive).
    pub open spec fn wf(self) -> bool {
        match self {
            Deal::Discount { new_price } => new_price@ >= 0,
            Deal::Batch { take, pay_for } => 0 < pay_for < take,
            Deal::BatchPrice { take, pay } => take >= 1 && pay@ > 0,
        }
    }

    /// Whether the deal yields a strictly positive saving against the given
    /// base price mantissa (for a well-formed deal).
    pub open spec fn gives_discount(self, base: int) -> bool {
        match self {
            Deal::Discount { new_price } => new_price@ < base,
            Deal::Batch { take, pay_for } => pay_for < take,
            Deal::BatchPrice { take, pay } => pay@ * take < base,
        }
    }

    /// Whether every price mantissa in the deal is within [`PRICE_LIMIT`].
    pub open spec fn bounded(self) -> bool {
        match self {
            Deal::Discount { new_price } => new_price@ <= PRICE_LIMIT,
            Deal::Batch { .. } => true,
            Deal::BatchPrice { pay, .. } => pay@ <= PRICE_LIMIT,
        }
    }

    /// The canonical form of the deal: "take 1 pay X" is the flat sale
    /// price `X`; everything else is already canonical.
    pub open spec fn canonical(self) -> Deal {
        match self {
            Deal::BatchPrice { take, pay } => {
                if take == 1 {
                    Deal::Discount { new_price: pay }
                } else {
                    self
                }
            },
            _ => self,
        }
    }

    /// Construct a new `Deal` offering free samples.
    ///
    /// Care should be taken to set a limit when storing this deal.
    pub fn free() -> (r: Self)
        ensures
            r matches Deal::Discount { new_price } && new_price@ == 0,
            r.wf(),
    {
        Deal::Discount { new_price: Decimal::zero() }
    }

    /// Construct a new `Deal` from the format used in storage, where all
    /// columns absent means no active offer and yields `None`.
    ///
    /// The columns are `new_price`, `quantity1` and `quantity2`:
    /// 1. "NEW PRICE X" (sale) has `new_price` as `Some(X)` and both
    ///    quantities absent.
    /// 2. "TAKE M PAY FOR N" has the quantities as `Some(M)` and `Some(N)`
    ///    and `new_price` absent.
    /// 3. "TAKE N PAY X" has `quantity1` as `Some(N)`, `new_price` as
    ///    `Some(X)`, and `quantity2` absent.
    ///
    /// # Errors
    ///
    /// Exactly as [`repr_deal`] describes: `ZeroPrice` for a non-positive
    /// base price, `OutOfRange` for a non-positive quantity or price,
    /// `InvalidVariant` when no case above matches, and `NoDiscount` when
    /// the shape is valid but yields no saving.
    pub fn try_from_repr(
        new_price: Option<Decimal>,
        quantity1: Option<i32>,
        quantity2: Option<i32>,
        base_price: Decimal,
    ) -> (r: Result<Option<Self>, DealError>)
        requires
            base_price@ <= PRICE_LIMIT,
            (match new_price {
                Some(np) => -PRICE_LIMIT <= np@ <= PRICE_LIMIT,
                None => true,
            }),
        ensures
            r == repr_deal(new_price, quantity1, quantity2, base_price),
    {
        let zero = Decimal::zero();
        if base_price.le(&zero) {
            return Err(DealError::ZeroPrice);
        }
        match (new_price, quantity1, quantity2) {
            (Some(np), None, None) => {
                if np.lt(&zero) {
                    Err(DealError::OutOfRange)
                } else if !np.lt(&base_price) {
                    Err(DealError::NoDiscount)
                } else {
                    Ok(Some(Deal::Discount { new_price: np }))
                }
            },
            (None, Some(take), Some(pay_for)) => {
                if take <= 0 || pay_for <= 0 {
                    Err(DealError::OutOfRange)
                } else if take <= pay_for {
                    Err(DealError::NoDiscount)
                } else {
                    Ok(Some(Deal::Batch { take: take as u32, pay_for: pay_for as u32 }))
                }
            },
            (Some(pay), Some(take), None) => {
                if !zero.lt(&pay) || take <= 0 {
                    Err(DealError::OutOfRange)
                } else {
                    proof {
                        assert(pay@ * (take as u32) <= i128::MAX && i128::MIN <= pay@ * (
                        take as u32)) by (nonlinear_arith)
                            requires
                                0 < pay@ <= PRICE_LIMIT,
                                0 < take <= i32::MAX,
                        ;
                    }
                    let total = pay.mul_int(take as u32);
                    if !total.lt(&base_price) {
                        Err(DealError::NoDiscount)
                    } else if take == 1 {
                        Ok(Some(Deal::Discount { new_price: pay }))
                    } else {
                        Ok(Some(Deal::BatchPrice { take: take as u32, pay }))
                    }
                }
            },
            (None, None, None) => Ok(None),
            _ => Err(DealError::InvalidVariant),
        }
    }

    /// Construct a new `Deal` from the format used in storage, where all
    /// columns absent is rejected as `InvalidVariant` rather than yielding
    /// `None`. Otherwise exactly [`Deal::try_from_repr`].
    pub fn from_repr(
        new_price: Option<Decimal>,
        quantity1: Option<i32>,
        quantity2: Option<i32>,
        base_price: Decimal,
    ) -> (r: Result<Self, DealError>)
        requires
            base_price@ <= PRICE_LIMIT,
            (match new_price {
                Some(np) => -PRICE_LIMIT <= np@ <= PRICE_LIMIT,
                None => true,
            }),
        ensures
            r == (match repr_deal(new_price, quantity1, quantity2, base_price) {
                Ok(Some(d)) => Ok::<Deal, DealError>(d),
                Ok(None) => Err::<Deal, DealError>(DealError::InvalidVariant),
                Err(e) => Err::<Deal, DealError>(e),
            }),
    {
        match Self::try_from_repr(new_price, quantity1, quantity2, base_price) {
            Ok(Some(deal)) => Ok(deal),
            Ok(None) => Err(DealError::InvalidVariant),
            Err(e) => Err(e),
        }
    }

    /// The flat storage columns the deal is written back as, or `None` when
    /// a quantity exceeds the storage integer width (`i32`).
    pub open spec fn repr_of(self) -> Option<(Option<Decimal>, Option<i32>, Option<i32>)> {
        match self {
            Deal::Discount { new_price } => Some((Some(new_price), None, None)),
            Deal::Batch { take, pay_for } => {
                if take <= i32::MAX && pay_for <= i32::MAX {
                    Some((None, Some(take as i32), Some(pay_for as i32)))
                } else {
                    None
                }
            },
            Deal::BatchPrice { take, pay } => {
                if take <= i32::MAX {
                    Some((Some(pay), Some(take as i32), None))
                } else {
                    None
                }
            },
        }
    }

    /// Convert a `Deal` into the format used in storage.
    ///
    /// Returns the columns `new_price`, `quantity1` and `quantity2`, or
    /// `None` when either quantity exceeds the storage integer width; that
    /// is checked explicitly, never silently truncated.
    pub fn database_repr(self) -> (r: Option<(Option<Decimal>, Option<i32>, Option<i32>)>)
        ensures
            r == self.repr_of(),
    {
        match self {
            Deal::Discount { new_price } => Some((Some(new_price), None, None)),
            Deal::Batch { take, pay_for } => {
                if take <= i32::MAX as u32 && pay_for <= i32::MAX as u32 {
                    Some((None, Some(take as i32), Some(pay_for as i32)))
                } else {
                    None
                }
            },
            Deal::BatchPrice { take, pay } => {
                if take <= i32::MAX as u32 {
                    Some((Some(pay), Some(take as i32), None))
                } else {
                    None
                }
            },
        }
    }
    /// The mantissa of the discount fraction against a base price mantissa:
    /// one minus the price ratio, each ratio truncated to nine fractional
    /// digits.
    pub open spec fn average_discount_spec(self, base: int) -> int {
        match self {
            Deal::Discount { new_price } => SCALE - (new_price@ * SCALE) / base,
            Deal::Batch { take, pay_for } => SCALE - (pay_for * SCALE) / (take as int),
            Deal::BatchPrice { take, pay } => SCALE - (pay@ * SCALE) / (base * take),
        }
    }

    /// Calculate the discount as an average fraction per unit.
    ///
    /// If `base_price` is the price the deal was validated against, the
    /// result is in `(0, 1]`; it is exactly 1 only for a free-sample deal
    /// or a ratio below the nine-digit resolution.
    pub fn average_discount(self, base_price: Decimal) -> (r: Decimal)
        requires
            self.wf(),
            self.bounded(),
            0 < base_price@ <= PRICE_LIMIT,
        ensures
            r@ == self.average_discount_spec(base_price@),
            self.gives_discount(base_price@) ==> 0 < r@ <= SCALE,
    {
        proof {
            if self.gives_discount(base_price@) {
                lemma_average_discount_positive(self, base_price@);
            }
        }
        let one = Decimal::one();
        match self {
            Deal::Discount { new_price } => {
                proof {
                    assert(new_price@ * SCALE
                        <= 2_000_000_000_000_000_000_000_000_000_000_000_000) by (nonlinear_arith)
                        requires
                            0 <= new_price@ <= PRICE_LIMIT,
                    ;
                }
                one.sub(new_price.div(base_price))
            },
            Deal::Batch { take, pay_for } => {
                proof {
                    assert((pay_for as int) * (SCALE as int) <= u64::MAX) by (nonlinear_arith)
                        requires
                            pay_for <= u32::MAX,
                    ;
                }
                let num: u64 = (pay_for as u64) * (SCALE as u64);
                let q: u64 = num / (take as u64);
                one.sub(Decimal::from_units(q as i128))
            },
            Deal::BatchPrice { take, pay } => {
                proof {
                    assert(0 < base_price@ * take <= i128::MAX) by (nonlinear_arith)
                        requires
                            0 < base_price@ <= PRICE_LIMIT,
                            1 <= take <= u32::MAX,
                    ;
                    assert(pay@ * SCALE <= 2_000_000_000_000_000_000_000_000_000_000_000_000)
                        by (nonlinear_arith)
                        requires
                            0 <= pay@ <= PRICE_LIMIT,
                    ;
                }
                let den = base_price.mul_int(take);
                one.sub(pay.div(den))
            },
        }
    }

    /// How many times the deal applies to `units` purchased units under an
    /// optional usage cap (absent means unbounded): a flat sale applies per
    /// unit, a batch deal once per full batch.
    pub open spec fn uses_spec(self, units: u32, limit: Option<u32>) -> int {
        let cap = match limit {
            Some(l) => l as int,
            None => u32::MAX as int,
        };
        let qualify = match self {
            Deal::Discount { .. } => units as int,
            Deal::Batch { take, .. } => (units as int) / (take as int),
            Deal::BatchPrice { take, .. } => (units as int) / (take as int),
        };
        if cap < qualify {
            cap
        } else {
            qualify
        }
    }

    /// The mantissa of the final price for `units` units at `ppu` per unit
    /// when the deal is applied `uses` times.
    pub open spec fn price_spec(self, units: u32, ppu: int, uses: int) -> int {
        match self {
            Deal::Discount { new_price } => uses * (new_price@ - ppu) + ppu * units,
            Deal::Batch { take, pay_for } => ppu * (units - uses * (take - pay_for)),
            Deal::BatchPrice { take, pay } => pay@ * uses + ppu * (units - take * uses),
        }
    }

    /// Calculate the price of a number of units of a product using this
    /// deal.
    ///
    /// Returns `(price, uses)` where `price` is the final price after
    /// discounts and `uses` is how many times the special offer was applied
    /// to get that price. Zero units cost zero with zero uses; partial
    /// batches never qualify.
    pub fn discounted_price(self, units: u32, price_per_unit: Decimal, limit: Option<u32>) -> (r: (
        Decimal,
        u32,
    ))
        requires
            self.wf(),
            self.bounded(),
            0 <= price_per_unit@ <= PRICE_LIMIT,
        ensures
            r.1 == self.uses_spec(units, limit),
            r.0@ == self.price_spec(units, price_per_unit@, r.1 as int),
    {
        let cap: u32 = match limit {
            Some(l) => l,
            None => u32::MAX,
        };
        match self {
            Deal::Discount { new_price } => {
                let uses: u32 = if cap < units {
                    cap
                } else {
                    units
                };
                proof {
                    assert(-5_000_000_000_000_000_000_000_000_000_000_000_000 <= (new_price@
                        - price_per_unit@) * uses
                        <= 5_000_000_000_000_000_000_000_000_000_000_000_000)
                        by (nonlinear_arith)
                        requires
                            -PRICE_LIMIT <= new_price@ - price_per_unit@ <= PRICE_LIMIT,
                            0 <= uses <= u32::MAX,
                    ;
                    assert(0 <= price_per_unit@ * units
                        <= 5_000_000_000_000_000_000_000_000_000_000_000_000)
                        by (nonlinear_arith)
                        requires
                            0 <= price_per_unit@ <= PRICE_LIMIT,
                            0 <= units <= u32::MAX,
                    ;
                }
                let diff = new_price.sub(price_per_unit);
                let part = diff.mul_int(uses);
                let full = price_per_unit.mul_int(units);
                let total = part.add(full);
                proof {
                    assert((new_price@ - price_per_unit@) * (uses as int) == (uses as int) * (
                    new_price@ - price_per_unit@)) by (nonlinear_arith);
                    assert(total@ == self.price_spec(units, price_per_unit@, uses as int));
                }
                (total, uses)
            },
            Deal::Batch { take, pay_for } => {
                let batches = units / take;
                let uses: u32 = if cap < batches {
                    cap
                } else {
                    batches
                };
                proof {
                    lemma_batch_uses_fit(
                        units as int,
                        take as int,
                        take - pay_for,
                        uses as int,
                    );
                    assert(price_per_unit@ * (units - uses * ((take - pay_for) as int))
                        <= i128::MAX) by (nonlinear_arith)
                        requires
                            0 <= price_per_unit@ <= PRICE_LIMIT,
                            0 <= units - uses * ((take - pay_for) as int) <= u32::MAX,
                    ;
                }
                let keep: u32 = units - uses * (take - pay_for);
                let total = price_per_unit.mul_int(keep);
                proof {
                    assert(total@ == self.price_spec(units, price_per_unit@, uses as int));
                }
                (total, uses)
            },
            Deal::BatchPrice { take, pay } => {
                let batches = units / take;
                let uses: u32 = if cap < batches {
                    cap
                } else {
                    batches
                };
                proof {
                    lemma_batch_uses_fit(units as int, take as int, take as int, uses as int);
                    assert(0 <= pay@ * uses <= 5_000_000_000_000_000_000_000_000_000_000_000_000)
                        by (nonlinear_arith)
                        requires
                            0 < pay@ <= PRICE_LIMIT,
                            0 <= uses <= u32::MAX,
                    ;
                    assert(0 <= price_per_unit@ * (units - uses * (take as int))
                        <= 5_000_000_000_000_000_000_000_000_000_000_000_000)
                        by (nonlinear_arith)
                        requires
                            0 <= price_per_unit@ <= PRICE_LIMIT,
                            0 <= units - uses * (take as int) <= u32::MAX,
                    ;
                }
                let rest: u32 = units - uses * take;
                let paid = pay.mul_int(uses);
                let total = paid.add(price_per_unit.mul_int(rest));
                proof {
                    assert((take as int) * (uses as int) == (uses as int) * (take as int))
                        by (nonlinear_arith);
                    assert(total@ == self.price_spec(units, price_per_unit@, uses as int));
                }
                (total, uses)
            },
        }
    }
}

/// For a deal applied `uses <= units / take` times, the units the offer
/// consumes stay within the purchased units: `0 <= units - uses * gap <=
/// units` for any `0 < gap <= take`.
proof fn lemma_batch_uses_fit(units: int, take: int, gap: int, uses: int)
    requires
        0 < gap <= take,
        0 <= units,
        0 <= uses <= units / take,
    ensures
        0 <= units - uses * gap <= units,
{
    lemma_fundamental_div_mod(units, take);
    assert(uses * gap <= (units / take) * take) by (nonlinear_arith)
        requires
            0 < gap <= take,
            0 <= uses <= units / take,
    ;
    assert(uses * gap >= 0) by (nonlinear_arith)
        requires
            0 <= uses,
            0 < gap,
    ;
    assert((units / take) * take <= units) by (nonlinear_arith)
        requires
            take > 0,
            units == (units / take) * take + units % take,
            units % take >= 0,
    ;
}

/// A truncated ratio `n / d` of a value below `d * 10^9` lies in
/// `[0, 10^9)`, and reaches at least one exactly when `n >= d`.
proof fn lemma_scaled_ratio_bounds(n: int, d: int)
    requires
        d > 0,
        0 <= n,
        n < d * SCALE,
    ensures
        0 <= n / d < SCALE,
        n / d >= 1 <==> n >= d,
{
    lemma_fundamental_div_mod(n, d);
    assert(n / d < SCALE) by (nonlinear_arith)
        requires
            d > 0,
            n < d * SCALE,
            n == d * (n / d) + n % d,
            n % d >= 0,
            n / d >= 0,
    ;
    assert(n / d >= 1 <==> n >= d) by (nonlinear_arith)
        requires
            d > 0,
            n >= 0,
            n == d * (n / d) + n % d,
            0 <= n % d < d,
            n / d >= 0,
    ;
}

/// Any deal accepted by [`repr_deal`] is well formed, gives a strictly
/// positive discount against the supplied base price, and carries prices
/// within the bounds the supplied columns had.
pub proof fn lemma_repr_deal_valid(
    new_price: Option<Decimal>,
    quantity1: Option<i32>,
    quantity2: Option<i32>,
    base_price: Decimal,
    deal: Deal,
)
    requires
        repr_deal(new_price, quantity1, quantity2, base_price) == Ok::<Option<Deal>, DealError>(
            Some(deal),
        ),
    ensures
        deal.wf(),
        deal.gives_discount(base_price@),
        base_price@ > 0,
        deal == deal.canonical(),
{
    match (new_price, quantity1, quantity2) {
        (Some(pay), Some(take), None) => {
            if take != 1 {
                assert(pay@ * take < base_price@);
                assert(pay@ * 1 < pay@ * take) by (nonlinear_arith)
                    requires
                        pay@ > 0,
                        take > 1,
                ;
            }
        },
        _ => {},
    }
}

/// Round-trip law: writing a valid deal to its storage columns and reading
/// them back against the same base price reproduces the deal, except that a
/// "take 1 pay X" batch price comes back in its canonical flat-sale form —
/// an intentional non-identity.
pub proof fn lemma_deal_round_trip(deal: Deal, base_price: Decimal)
    requires
        deal.wf(),
        deal.gives_discount(base_price@),
        0 < base_price@,
        deal.repr_of() is Some,
    ensures
        ({
            let (np, q1, q2) = deal.repr_of()->Some_0;
            repr_deal(np, q1, q2, base_price) == Ok::<Option<Deal>, DealError>(
                Some(deal.canonical()),
            )
        }),
{
    match deal {
        Deal::Discount { new_price } => {},
        Deal::Batch { take, pay_for } => {},
        Deal::BatchPrice { take, pay } => {
            if take != 1 {
                assert(pay@ * 1 <= pay@ * take) by (nonlinear_arith)
                    requires
                        pay@ > 0,
                        take >= 1,
                ;
            }
        },
    }
}

/// Discount positivity law: a well-formed discounting deal's average
/// discount fraction lies in `(0, 1]`, and is strictly below one exactly
/// when the underlying price ratio is at least the nine-digit resolution
/// (a free-sample price of zero, for instance, reaches exactly one).
pub proof fn lemma_average_discount_positive(deal: Deal, base: int)
    requires
        deal.wf(),
        deal.gives_discount(base),
        0 < base,
    ensures
        0 < deal.average_discount_spec(base) <= SCALE,
        deal.average_discount_spec(base) < SCALE <==> (match deal {
            Deal::Discount { new_price } => new_price@ * SCALE >= base,
            Deal::Batch { take, pay_for } => pay_for * SCALE >= take,
            Deal::BatchPrice { take, pay } => pay@ * SCALE >= base * take,
        }),
{
    match deal {
        Deal::Discount { new_price } => {
            assert(new_price@ * SCALE < base * SCALE) by (nonlinear_arith)
                requires
                    new_price@ < base,
            ;
            assert(new_price@ * SCALE >= 0) by (nonlinear_arith)
                requires
                    new_price@ >= 0,
            ;
            lemma_scaled_ratio_bounds(new_price@ * SCALE, base);
        },
        Deal::Batch { take, pay_for } => {
            assert(pay_for * SCALE < (take as int) * SCALE) by (nonlinear_arith)
                requires
                    pay_for < take,
            ;
            assert(pay_for * SCALE >= 0) by (nonlinear_arith)
                requires
                    pay_for >= 0,
            ;
            lemma_scaled_ratio_bounds(pay_for * SCALE, take as int);
        },
        Deal::BatchPrice { take, pay } => {
            assert(pay@ * SCALE < (base * take) * SCALE) by (nonlinear_arith)
                requires
                    pay@ * take < base,
                    pay@ > 0,
                    take >= 1,
                    base > 0,
            ;
            assert(pay@ * SCALE >= 0 && base * take > 0) by (nonlinear_arith)
                requires
                    pay@ > 0,
                    base > 0,
                    take >= 1,
            ;
            lemma_scaled_ratio_bounds(pay@ * SCALE, base * take);
        },
    }
}

} // verus!
