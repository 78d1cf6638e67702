use catalog_core::{
    group_orders, Deal, Decimal, ProductInfo, ProductInfoRepr, ProductOverview, ProductRepr,
    Purchase, PurchaseRepr,
};
use catalog_core::{Amount, Id};

fn dec(i: i64) -> Decimal {
    Decimal::from_int(i)
}

fn card_repr() -> ProductRepr {
    ProductRepr {
        id: 11,
        name: "Oat flakes".to_string(),
        thumbnail: "http://example.com/oats.png".to_string(),
        price: dec(10),
        overview: "Rolled oats".to_string(),
        in_stock: 40,
        origin: "Norway".to_string(),
        amount_per_unit: Decimal::from_scaled(5, 1),
        measurement_unit: Some("kg".to_string()),
        new_price: None,
        quantity1: Some(3),
        quantity2: Some(2),
        members_only: Some(false),
        vendor_name: "Mill & Co".to_string(),
        favorited: true,
    }
}

#[test]
fn overview_from_repr_builds_offer() {
    let o = ProductOverview::from_repr(card_repr());
    assert_eq!(o.id, Id::new(11));
    assert_eq!(o.in_stock, 40);
    assert_eq!(
        o.special_offer,
        Some((Deal::Batch { take: 3, pay_for: 2 }, false))
    );
    assert_eq!(o.amount_per_unit.quantity(), Decimal::from_scaled(5, 1));
    assert!(o.favorited);
}

#[test]
fn overview_from_repr_without_offer() {
    let mut repr = card_repr();
    repr.new_price = None;
    repr.quantity1 = None;
    repr.quantity2 = None;
    repr.members_only = None;
    let o = ProductOverview::from_repr(repr);
    assert_eq!(o.special_offer, None);
}

fn info_repr() -> ProductInfoRepr {
    ProductInfoRepr {
        name: "Oat flakes".to_string(),
        gallery: Vec::new(),
        thumbnail: "http://example.com/oats.png".to_string(),
        price: dec(10),
        description: "A long description.".to_string(),
        in_stock: 40,
        amount_per_unit: dec(1),
        measurement_unit: None,
        origin: "Norway".to_string(),
        visible: true,
        created_at: 1000,
        updated_at: 2000,
        new_price: Some(dec(8)),
        quantity1: None,
        quantity2: None,
        limit_per_customer: Some(2),
        members_only: Some(true),
        vendor_id: 5,
        vendor_name: "Mill & Co".to_string(),
        category_path: vec![(1, "Food".to_string()), (3, "Cereal".to_string())],
        average_rating: Some(Decimal::from_scaled(42, 1)),
        rating_count: 7,
        favorited: false,
        own_rating: Some(4),
        has_purchased: true,
    }
}

#[test]
fn info_from_repr_gallery_falls_back_to_thumbnail() {
    let info = ProductInfo::from_repr(Id::new(11), info_repr());
    assert_eq!(info.gallery, vec!["http://example.com/oats.png".to_string()]);
    let mut repr = info_repr();
    repr.gallery = vec!["a.png".to_string(), "b.png".to_string()];
    let info = ProductInfo::from_repr(Id::new(11), repr);
    assert_eq!(info.gallery, vec!["a.png".to_string(), "b.png".to_string()]);
}

#[test]
fn info_from_repr_fields() {
    let info = ProductInfo::from_repr(Id::new(11), info_repr());
    assert_eq!(info.id, Id::new(11));
    assert_eq!(info.vendor_id, Id::new(5));
    assert_eq!(
        info.special_offer,
        Some((Deal::Discount { new_price: dec(8) }, Some(2), true))
    );
    assert_eq!(info.rating.count(), 7);
    assert_eq!(info.rating.rating(), Some(Decimal::from_scaled(42, 1)));
    assert_eq!(info.own_rating.get(), 4);
    assert_eq!(info.category.segments.len(), 2);
    assert_eq!(info.category.segments[0], (Id::new(1), "Food".to_string()));
    assert_eq!(info.category.segments[1], (Id::new(3), "Cereal".to_string()));
}

fn purchase(name: &str) -> Purchase {
    Purchase::from_repr(PurchaseRepr {
        time: 0,
        paid: dec(12),
        special_offer_used: false,
        number: 2,
        amount_per_unit: dec(1),
        measurement_unit: None,
        product_name: name.to_string(),
        thumbnail: "t.png".to_string(),
        vendor_name: "Mill & Co".to_string(),
    })
}

#[test]
fn purchase_from_repr_fields() {
    let p = purchase("Oats");
    assert_eq!(p.number, 2);
    assert_eq!(p.paid, dec(12));
    assert_eq!(p.amount_per_unit, Amount::discrete(1));
}

#[test]
fn orders_group_by_consecutive_time() {
    let input = vec![
        (90, purchase("a")),
        (90, purchase("b")),
        (50, purchase("c")),
    ];
    let orders = group_orders(input);
    assert_eq!(orders.len(), 2);
    assert_eq!(orders[0].time, 90);
    assert_eq!(orders[0].purchases.len(), 2);
    assert_eq!(orders[0].purchases[0].product_name, "a");
    assert_eq!(orders[0].purchases[1].product_name, "b");
    assert_eq!(orders[1].time, 50);
    assert_eq!(orders[1].purchases.len(), 1);
}

#[test]
fn orders_empty_input() {
    let orders = group_orders(Vec::new());
    assert!(orders.is_empty());
}
