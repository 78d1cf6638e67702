use catalog_core::{Deal, DealError, Decimal};

fn dec(i: i64) -> Decimal {
    Decimal::from_int(i)
}

#[test]
fn construct_discount() {
    let deal = Deal::from_repr(Some(dec(8)), None, None, dec(10)).unwrap();
    assert_eq!(deal, Deal::Discount { new_price: dec(8) });
}

#[test]
fn construct_batch() {
    let deal = Deal::from_repr(None, Some(3), Some(2), dec(10)).unwrap();
    assert_eq!(deal, Deal::Batch { take: 3, pay_for: 2 });
}

#[test]
fn construct_batch_price() {
    let deal = Deal::from_repr(Some(dec(4)), Some(2), None, dec(10)).unwrap();
    assert_eq!(deal, Deal::BatchPrice { take: 2, pay: dec(4) });
}

#[test]
fn batch_price_of_one_collapses_to_discount() {
    let deal = Deal::from_repr(Some(dec(5)), Some(1), None, dec(10)).unwrap();
    assert_eq!(deal, Deal::Discount { new_price: dec(5) });
}

#[test]
fn no_offer_is_absence_not_error() {
    let r = Deal::try_from_repr(None, None, None, dec(10)).unwrap();
    assert_eq!(r, None);
    let r = Deal::from_repr(None, None, None, dec(10));
    assert_eq!(r, Err(DealError::InvalidVariant));
}

#[test]
fn rejection_no_discount() {
    // An equal price is not a discount, nor is a price increase.
    let r = Deal::from_repr(Some(dec(10)), None, None, dec(10));
    assert_eq!(r, Err(DealError::NoDiscount));
    let r = Deal::from_repr(Some(dec(10)), None, None, dec(9));
    assert_eq!(r, Err(DealError::NoDiscount));
}

#[test]
fn rejection_zero_price() {
    let r = Deal::from_repr(Some(dec(1)), None, None, dec(0));
    assert_eq!(r, Err(DealError::ZeroPrice));
    let r = Deal::from_repr(Some(dec(1)), None, None, dec(-3));
    assert_eq!(r, Err(DealError::ZeroPrice));
}

#[test]
fn rejection_out_of_range() {
    let r = Deal::from_repr(Some(dec(-1)), None, None, dec(10));
    assert_eq!(r, Err(DealError::OutOfRange));
    let r = Deal::from_repr(None, Some(0), Some(-1), dec(10));
    assert_eq!(r, Err(DealError::OutOfRange));
    let r = Deal::from_repr(Some(dec(1)), Some(-2), None, dec(10));
    assert_eq!(r, Err(DealError::OutOfRange));
}

#[test]
fn rejection_invalid_variant() {
    let r = Deal::from_repr(None, None, Some(2), dec(10));
    assert_eq!(r, Err(DealError::InvalidVariant));
    let r = Deal::from_repr(Some(dec(1)), Some(2), Some(3), dec(10));
    assert_eq!(r, Err(DealError::InvalidVariant));
    let r = Deal::from_repr(None, Some(2), None, dec(10));
    assert_eq!(r, Err(DealError::InvalidVariant));
}

#[test]
fn rejection_batch_without_saving() {
    let r = Deal::from_repr(None, Some(2), Some(2), dec(10));
    assert_eq!(r, Err(DealError::NoDiscount));
    let r = Deal::from_repr(None, Some(2), Some(3), dec(10));
    assert_eq!(r, Err(DealError::NoDiscount));
    let r = Deal::from_repr(Some(dec(5)), Some(2), None, dec(10));
    assert_eq!(r, Err(DealError::NoDiscount));
}

#[test]
fn errors_have_messages() {
    assert!(!DealError::ZeroPrice.message().is_empty());
    assert!(!DealError::OutOfRange.message().is_empty());
    assert!(!DealError::InvalidVariant.message().is_empty());
    assert!(!DealError::NoDiscount.message().is_empty());
}

#[test]
fn free_samples() {
    let deal = Deal::free();
    assert_eq!(deal, Deal::Discount { new_price: dec(0) });
    // A fully free deal discounts by exactly one.
    assert_eq!(deal.average_discount(dec(10)), Decimal::one());
}

#[test]
fn round_trip_discount() {
    let deal = Deal::from_repr(Some(dec(8)), None, None, dec(10)).unwrap();
    let (np, q1, q2) = deal.database_repr().unwrap();
    assert_eq!((np, q1, q2), (Some(dec(8)), None, None));
    assert_eq!(Deal::from_repr(np, q1, q2, dec(10)).unwrap(), deal);
}

#[test]
fn round_trip_batch() {
    let deal = Deal::Batch { take: 3, pay_for: 2 };
    let (np, q1, q2) = deal.database_repr().unwrap();
    assert_eq!((np, q1, q2), (None, Some(3), Some(2)));
    assert_eq!(Deal::from_repr(np, q1, q2, dec(10)).unwrap(), deal);
}

#[test]
fn round_trip_batch_price() {
    let deal = Deal::BatchPrice { take: 4, pay: dec(30) };
    let (np, q1, q2) = deal.database_repr().unwrap();
    assert_eq!((np, q1, q2), (Some(dec(30)), Some(4), None));
    assert_eq!(Deal::from_repr(np, q1, q2, dec(130)).unwrap(), deal);
}

#[test]
fn round_trip_batch_price_of_one_is_canonical() {
    // The intentional non-identity: "take 1 pay X" comes back as the
    // canonical flat sale price.
    let deal = Deal::BatchPrice { take: 1, pay: dec(5) };
    let (np, q1, q2) = deal.database_repr().unwrap();
    assert_eq!(
        Deal::from_repr(np, q1, q2, dec(10)).unwrap(),
        Deal::Discount { new_price: dec(5) }
    );
}

#[test]
fn unstorable_quantity_is_rejected_explicitly() {
    let deal = Deal::Batch {
        take: u32::MAX,
        pay_for: 1,
    };
    assert_eq!(deal.database_repr(), None);
    let deal = Deal::BatchPrice {
        take: u32::MAX,
        pay: dec(1),
    };
    assert_eq!(deal.database_repr(), None);
}

#[test]
fn average_discount_flat_sale() {
    // 1 - 5/10 = 0.5
    let deal = Deal::Discount { new_price: dec(5) };
    assert_eq!(deal.average_discount(dec(10)), Decimal::from_scaled(5, 1));
}

#[test]
fn average_discount_batch() {
    // 1 - 3/4 = 0.25
    let deal = Deal::Batch { take: 4, pay_for: 3 };
    assert_eq!(deal.average_discount(dec(10)), Decimal::from_scaled(25, 2));
    // 1 - 2/3, truncated at nine digits: 0.333333334
    let deal = Deal::Batch { take: 3, pay_for: 2 };
    assert_eq!(
        deal.average_discount(dec(10)),
        Decimal::from_scaled(333_333_334, 9)
    );
}

#[test]
fn average_discount_batch_price() {
    // 1 - 4/(10*2) = 0.8
    let deal = Deal::BatchPrice { take: 2, pay: dec(4) };
    assert_eq!(deal.average_discount(dec(10)), Decimal::from_scaled(8, 1));
}

#[test]
fn batch_integer_floor() {
    // Seven units of a "take 3 pay for 2" deal: two full batches, one
    // unit short of a third; final price is five units' worth.
    let deal = Deal::Batch { take: 3, pay_for: 2 };
    let p = dec(1);
    let (price, uses) = deal.discounted_price(7, p, None);
    assert_eq!(uses, 2);
    assert_eq!(price, dec(5));
}

#[test]
fn usage_cap() {
    // The same deal capped at one use pays for six of seven units.
    let deal = Deal::Batch { take: 3, pay_for: 2 };
    let p = dec(1);
    let (price, uses) = deal.discounted_price(7, p, Some(1));
    assert_eq!(uses, 1);
    assert_eq!(price, dec(6));
}

#[test]
fn discounted_price_flat_sale() {
    let deal = Deal::Discount { new_price: dec(8) };
    let (price, uses) = deal.discounted_price(3, dec(10), None);
    assert_eq!(uses, 3);
    assert_eq!(price, dec(24));
    let (price, uses) = deal.discounted_price(3, dec(10), Some(2));
    assert_eq!(uses, 2);
    assert_eq!(price, dec(26));
}

#[test]
fn discounted_price_batch_price() {
    // Take 4 for 30: nine units at 10 each pay 30 + 30 + 10.
    let deal = Deal::BatchPrice { take: 4, pay: dec(30) };
    let (price, uses) = deal.discounted_price(9, dec(10), None);
    assert_eq!(uses, 2);
    assert_eq!(price, dec(70));
}

#[test]
fn discounted_price_zero_units() {
    let deal = Deal::Batch { take: 3, pay_for: 2 };
    let (price, uses) = deal.discounted_price(0, dec(10), None);
    assert_eq!(uses, 0);
    assert_eq!(price, dec(0));
}
