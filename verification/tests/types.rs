use catalog_core::{
    build_pfp, Amount, AverageRating, BoundedString, Customer, Decimal, Email, Id,
    ProfilePicture, Rating, Role, User, Username, ADMIN_PROFILE_PICTURE,
};

#[test]
fn rating_range() {
    assert!(Rating::new(0).is_none());
    assert_eq!(Rating::new(1).unwrap().get(), 1);
    assert_eq!(Rating::new(5).unwrap().get(), 5);
    assert!(Rating::new(6).is_none());
}

#[test]
fn decimal_scales_agree() {
    assert_eq!(Decimal::from_scaled(250, 2), Decimal::from_scaled(2500, 3));
    assert_eq!(Decimal::from_int(3), Decimal::from_scaled(3, 0));
    assert_eq!(Decimal::zero(), Decimal::from_int(0));
}

#[test]
fn amount_discrete_must_be_integer() {
    // 4.2 of a unitless product is rejected; 4.2 kg is fine.
    let frac = Decimal::from_scaled(42, 1);
    assert!(Amount::new(frac, None).is_none());
    let a = Amount::new(frac, Some("kg".to_string())).unwrap();
    assert_eq!(a.quantity(), frac);
    assert_eq!(a.unit(), Some("kg"));
}

#[test]
fn amount_rejects_negative() {
    let neg = Decimal::from_int(-1);
    assert!(Amount::new(neg, None).is_none());
    assert!(Amount::new(neg, Some("kg".to_string())).is_none());
}

#[test]
fn amount_discrete_constructor() {
    let a = Amount::discrete(8);
    assert_eq!(a.quantity(), Decimal::from_int(8));
    assert_eq!(a.unit(), None);
}

#[test]
fn amount_with_unit_constructor() {
    let q = Decimal::from_scaled(815, 2);
    let a = Amount::with_unit(q, "dl".to_string());
    assert_eq!(a.quantity(), q);
    assert_eq!(a.unit(), Some("dl"));
}

#[test]
fn average_rating_empty_state() {
    let r = AverageRating::new(Decimal::from_int(3), 0).unwrap();
    assert_eq!(r.count(), 0);
    assert_eq!(r.rating(), None);
}

#[test]
fn average_rating_in_range() {
    let r = AverageRating::new(Decimal::from_scaled(45, 1), 12).unwrap();
    assert_eq!(r.count(), 12);
    assert_eq!(r.rating(), Some(Decimal::from_scaled(45, 1)));
    assert!(AverageRating::new(Decimal::from_int(6), 2).is_none());
    assert!(AverageRating::new(Decimal::from_int(0), 2).is_none());
}

#[test]
fn average_rating_from_single() {
    let r = AverageRating::from_rating(Rating::new(4).unwrap());
    assert_eq!(r.count(), 1);
    assert_eq!(r.rating(), Some(Decimal::from_int(4)));
}

#[test]
fn bounded_string_counts_characters() {
    assert!(BoundedString::<5>::new("hello".to_string()).is_some());
    assert!(BoundedString::<5>::new("hello!".to_string()).is_none());
    // Characters, not bytes.
    let five_chars = "h\u{e9}llo".to_string();
    assert!(five_chars.len() > 5);
    let b = BoundedString::<5>::new(five_chars.clone()).unwrap();
    assert_eq!(b.as_str(), five_chars.as_str());
}

#[test]
fn username_pattern() {
    assert_eq!(Username::new("bob".to_string()).unwrap().as_str(), "bob");
    assert!(Username::new("bo".to_string()).is_none());
    assert!(Username::new("a".repeat(21)).is_none());
    assert!(Username::new("has space".to_string()).is_none());
    assert!(Username::new("under_score-dash".to_string()).is_some());
}

#[test]
fn email_pattern() {
    assert!(Email::new("user@example.com".to_string()).is_some());
    assert!(Email::new("not an email".to_string()).is_none());
    assert!(Email::new("trailing@dot.".to_string()).is_none());
}

#[test]
fn profile_picture_urls() {
    let own = ProfilePicture::new("http://example.com/me.png".to_string());
    assert!(!own.is_admin());
    assert_eq!(own.url(), "http://example.com/me.png");
    let admin = ProfilePicture::admin();
    assert!(admin.is_admin());
    assert_eq!(admin.url(), ADMIN_PROFILE_PICTURE);
}

#[test]
fn ids_compare_by_raw_key() {
    let a: Id<Customer> = Id::new(3);
    let b: Id<Customer> = Id::new(3);
    let c: Id<Customer> = Id::new(4);
    assert_eq!(a, b);
    assert_ne!(a, c);
    assert_eq!(a.get(), 3);
    let u: Id<User> = a.widen();
    assert_eq!(u.get(), 3);
    let from_raw: Id<Customer> = 3.into();
    assert_eq!(from_raw, a);
}

#[test]
fn bounded_string_empty_and_zero() {
    assert!(BoundedString::<0>::new(String::new()).is_some());
    assert!(BoundedString::<0>::new("x".to_string()).is_none());
}

#[test]
fn build_pfp_by_role() {
    let c = build_pfp(Role::Customer, Some("c.png".to_string()), None);
    assert_eq!(c.url(), "c.png");
    let v = build_pfp(Role::Vendor, None, Some("v.png".to_string()));
    assert_eq!(v.url(), "v.png");
    let a = build_pfp(Role::Administrator, None, None);
    assert!(a.is_admin());
}
