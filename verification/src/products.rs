//! Product read models: the overview projections shown on product cards,
//! the full product page info, and order history grouping.
//!
//! Each `from_repr` function assembles a read model from the flat row a
//! query returns. The rows are trusted storage output: the preconditions
//! state the storage invariants they must uphold (positive stock, a
//! consistent special offer, a valid amount), exactly where the
//! surrounding system would treat a violation as corruption.

use crate::categories::CategoryPath;
use crate::deal::{Deal, PRICE_LIMIT, repr_deal};
use crate::decimal::{Decimal, SCALE};
use crate::ids::{Category, Id, Product, Vendor};
use crate::types::{Amount, AverageRating, Rating};
use vstd::pervasive::unreached;
use vstd::prelude::*;

verus! {

/// Whether an optional price mantissa stays within [`PRICE_LIMIT`].
pub open spec fn price_bounded(p: Option<Decimal>) -> bool {
    match p {
        Some(d) => -PRICE_LIMIT <= d@ <= PRICE_LIMIT,
        None => true,
    }
}

/// Construct an [`Amount`] from its representation in storage, which
/// guarantees a valid pair (non-negative, integer when unitless).
pub fn build_amount(amount_per_unit: Decimal, measurement_unit: Option<String>) -> (r: Amount)
    requires
        amount_per_unit@ >= 0,
        measurement_unit is None ==> amount_per_unit@ % (SCALE as int) == 0,
    ensures
        r.spec_quantity() == amount_per_unit@,
        (match (r.spec_unit(), measurement_unit) {
            (Some(got), Some(given)) => got == given@,
            (None, None) => true,
            _ => false,
        }),
        r.wf(),
{
    match Amount::new(amount_per_unit, measurement_unit) {
        Some(a) => a,
        None => unreached(),
    }
}

/// Whether the special-offer columns of a product row are consistent:
/// they parse as a deal (or as no offer) against the product's price, and
/// the members-only flag is present exactly when the offer is.
pub open spec fn offer_repr_consistent(
    new_price: Option<Decimal>,
    quantity1: Option<i32>,
    quantity2: Option<i32>,
    members_only: Option<bool>,
    price: Decimal,
) -> bool {
    match repr_deal(new_price, quantity1, quantity2, price) {
        Ok(Some(_)) => members_only is Some,
        Ok(None) => members_only is None,
        Err(_) => false,
    }
}

/// Construct a [`Deal`] and its members-only flag from the row of a
/// product with an active special offer, accepting that there may be
/// none.
pub fn try_build_special_offer(
    new_price: Option<Decimal>,
    quantity1: Option<i32>,
    quantity2: Option<i32>,
    members_only: Option<bool>,
    price: Decimal,
) -> (r: Option<(Deal, bool)>)
    requires
        offer_repr_consistent(new_price, quantity1, quantity2, members_only, price),
        price@ <= PRICE_LIMIT,
        price_bounded(new_price),
    ensures
        (match r {
            Some((deal, mo)) => repr_deal(new_price, quantity1, quantity2, price) == Ok::<
                Option<Deal>,
                crate::deal::DealError,
            >(Some(deal)) && members_only == Some(mo),
            None => repr_deal(new_price, quantity1, quantity2, price) matches Ok(None),
        }),
{
    let deal = match Deal::try_from_repr(new_price, quantity1, quantity2, price) {
        Ok(d) => d,
        Err(_) => unreached(),
    };
    match (deal, members_only) {
        (Some(deal), Some(mo)) => Some((deal, mo)),
        (None, None) => None,
        _ => unreached(),
    }
}

/// Construct an [`AverageRating`] from its representation in storage: the
/// aggregated mean (absent when no ratings exist) and the rating count.
pub fn build_average_rating(average_rating: Option<Decimal>, rating_count: i64) -> (r:
    AverageRating)
    requires
        rating_count >= 0,
        average_rating is Some <==> rating_count > 0,
        (match average_rating {
            Some(m) => SCALE <= m@ <= 5 * (SCALE as int),
            None => true,
        }),
    ensures
        r.spec_count() == rating_count,
        r.wf(),
        (match average_rating {
            Some(m) => r.spec_rating() == m@,
            None => true,
        }),
{
    match average_rating {
        Some(mean) => {
            match AverageRating::new(mean, rating_count as u64) {
                Some(r) => r,
                None => unreached(),
            }
        },
        None => AverageRating::none(),
    }
}

/// An overview of a product, for display on product cards.
#[derive(Debug, PartialEq, Eq)]
pub struct ProductOverview {
    /// The ID of the product.
    pub id: Id<Product>,
    /// The name of the product.
    pub name: String,
    /// URL to an image to display on the product card.
    pub thumbnail: String,
    /// The price of the product before any discounts.
    pub price: Decimal,
    /// A short description of the product.
    pub overview: String,
    /// How many units are in stock; always positive for listed cards.
    pub in_stock: u32,
    /// How much of the product is included in one unit.
    pub amount_per_unit: Amount,
    /// The name of the vendor.
    pub vendor_name: String,
    /// The origin of the product. May or may not be the name of a country.
    pub origin: String,
    /// The currently active special offer, if any, and whether it only
    /// applies to members.
    pub special_offer: Option<(Deal, bool)>,
    /// Whether the customer has marked the product as a favorite.
    /// Meaningless when no customer was given to the query.
    pub favorited: bool,
}

/// The flat row behind [`ProductOverview`].
#[derive(Debug)]
pub struct ProductRepr {
    /// The ID of the product.
    pub id: i32,
    /// The name of the product.
    pub name: String,
    /// URL to the card image.
    pub thumbnail: String,
    /// The undiscounted price.
    pub price: Decimal,
    /// The short description.
    pub overview: String,
    /// Units in stock.
    pub in_stock: i32,
    /// The origin of the product.
    pub origin: String,
    /// The quantity in one unit.
    pub amount_per_unit: Decimal,
    /// The unit of measure, absent for discrete items.
    pub measurement_unit: Option<String>,
    /// The active offer's sale price column.
    pub new_price: Option<Decimal>,
    /// The active offer's first quantity column.
    pub quantity1: Option<i32>,
    /// The active offer's second quantity column.
    pub quantity2: Option<i32>,
    /// Whether the active offer is members-only, absent without an offer.
    pub members_only: Option<bool>,
    /// The vendor's display name.
    pub vendor_name: String,
    /// Whether the reading customer favorited the product.
    pub favorited: bool,
}

/// The storage invariants a product-card row upholds.
pub open spec fn product_repr_wf(r: ProductRepr) -> bool {
    &&& r.in_stock >= 1
    &&& r.amount_per_unit@ >= 0
    &&& (r.measurement_unit is None ==> r.amount_per_unit@ % (SCALE as int) == 0)
    &&& offer_repr_consistent(r.new_price, r.quantity1, r.quantity2, r.members_only, r.price)
    &&& r.price@ <= PRICE_LIMIT
    &&& price_bounded(r.new_price)
}

impl ProductOverview {
    /// Assemble the card read model from a flat row.
    pub fn from_repr(repr: ProductRepr) -> (r: Self)
        requires
            product_repr_wf(repr),
        ensures
            r.id@ == repr.id,
            r.name == repr.name,
            r.thumbnail == repr.thumbnail,
            r.price == repr.price,
            r.overview == repr.overview,
            r.in_stock == repr.in_stock,
            r.amount_per_unit.spec_quantity() == repr.amount_per_unit@,
            r.vendor_name == repr.vendor_name,
            r.origin == repr.origin,
            (match r.special_offer {
                Some((deal, mo)) => repr_deal(repr.new_price, repr.quantity1, repr.quantity2, repr.price)
                    == Ok::<Option<Deal>, crate::deal::DealError>(Some(deal)) && repr.members_only
                    == Some(mo),
                None => repr_deal(repr.new_price, repr.quantity1, repr.quantity2, repr.price)
                    matches Ok(None),
            }),
            r.favorited == repr.favorited,
    {
        let special_offer = try_build_special_offer(
            repr.new_price,
            repr.quantity1,
            repr.quantity2,
            repr.members_only,
            repr.price,
        );
        ProductOverview {
            id: Id::new(repr.id),
            name: repr.name,
            thumbnail: repr.thumbnail,
            price: repr.price,
            overview: repr.overview,
            in_stock: repr.in_stock as u32,
            amount_per_unit: build_amount(repr.amount_per_unit, repr.measurement_unit),
            vendor_name: repr.vendor_name,
            origin: repr.origin,
            special_offer,
            favorited: repr.favorited,
        }
    }
}

/// An overview of a product with an active special offer, for display on
/// discount-sorted product cards.
#[derive(Debug, PartialEq, Eq)]
pub struct ProductOverviewDiscounted {
    /// The ID of the product.
    pub id: Id<Product>,
    /// The name of the product.
    pub name: String,
    /// URL to an image to display on the product card.
    pub thumbnail: String,
    /// The price of the product before any discounts.
    pub price: Decimal,
    /// A short description of the product.
    pub overview: String,
    /// How many units are in stock; always positive for listed cards.
    pub in_stock: u32,
    /// How much of the product is included in one unit.
    pub amount_per_unit: Amount,
    /// The name of the vendor.
    pub vendor_name: String,
    /// The origin of the product. May or may not be the name of a country.
    pub origin: String,
    /// The currently active special offer on the product.
    pub special_offer_deal: Deal,
    /// Whether the special offer only applies to members.
    pub special_offer_members_only: bool,
    /// Whether the customer has marked the product as a favorite.
    /// Meaningless when no customer was given to the query.
    pub favorited: bool,
}

impl ProductOverviewDiscounted {
    /// Assemble the discounted-card read model from a flat row, whose
    /// offer columns must hold an active offer.
    pub fn from_repr(repr: ProductRepr, members_only: bool) -> (r: Self)
        requires
            product_repr_wf(repr),
            repr.members_only == Some(members_only),
            repr_deal(repr.new_price, repr.quantity1, repr.quantity2, repr.price) matches Ok(d)
                && d is Some,
        ensures
            r.id@ == repr.id,
            r.name == repr.name,
            r.thumbnail == repr.thumbnail,
            r.price == repr.price,
            r.overview == repr.overview,
            r.in_stock == repr.in_stock,
            r.amount_per_unit.spec_quantity() == repr.amount_per_unit@,
            r.vendor_name == repr.vendor_name,
            r.origin == repr.origin,
            Ok::<Option<Deal>, crate::deal::DealError>(Some(r.special_offer_deal)) == repr_deal(
                repr.new_price,
                repr.quantity1,
                repr.quantity2,
                repr.price,
            ),
            r.special_offer_members_only == members_only,
            r.favorited == repr.favorited,
    {
        let (deal, mo) = match try_build_special_offer(
            repr.new_price,
            repr.quantity1,
            repr.quantity2,
            repr.members_only,
            repr.price,
        ) {
            Some(pair) => pair,
            None => unreached(),
        };
        ProductOverviewDiscounted {
            id: Id::new(repr.id),
            name: repr.name,
            thumbnail: repr.thumbnail,
            price: repr.price,
            overview: repr.overview,
            in_stock: repr.in_stock as u32,
            amount_per_unit: build_amount(repr.amount_per_unit, repr.measurement_unit),
            vendor_name: repr.vendor_name,
            origin: repr.origin,
            special_offer_deal: deal,
            special_offer_members_only: mo,
            favorited: repr.favorited,
        }
    }
}

/// An overview of a product owned by a known vendor, for display on the
/// vendor's own product cards; the vendor's name is implied.
#[derive(Debug, PartialEq, Eq)]
pub struct ProductOverviewVendor {
    /// The ID of the product.
    pub id: Id<Product>,
    /// The name of the product.
    pub name: String,
    /// URL to an image to display on the product card.
    pub thumbnail: String,
    /// The price of the product before any discounts.
    pub price: Decimal,
    /// A short description of the product.
    pub overview: String,
    /// How many units are in stock; may be zero for a vendor's own list.
    pub in_stock: u32,
    /// How much of the product is included in one unit.
    pub amount_per_unit: Amount,
    /// The origin of the product. May or may not be the name of a country.
    pub origin: String,
    /// The currently active special offer, if any, and whether it only
    /// applies to members.
    pub special_offer: Option<(Deal, bool)>,
    /// Whether the customer has marked the product as a favorite.
    /// Meaningless when no customer was given to the query.
    pub favorited: bool,
}

impl ProductOverviewVendor {
    /// Assemble the vendor-card read model from a flat row; unlike the
    /// customer-facing cards, out-of-stock rows are allowed.
    pub fn from_repr(repr: ProductRepr) -> (r: Self)
        requires
            repr.in_stock >= 0,
            repr.amount_per_unit@ >= 0,
            repr.measurement_unit is None ==> repr.amount_per_unit@ % (SCALE as int) == 0,
            offer_repr_consistent(
                repr.new_price,
                repr.quantity1,
                repr.quantity2,
                repr.members_only,
                repr.price,
            ),
            repr.price@ <= PRICE_LIMIT,
            price_bounded(repr.new_price),
        ensures
            r.id@ == repr.id,
            r.name == repr.name,
            r.thumbnail == repr.thumbnail,
            r.price == repr.price,
            r.overview == repr.overview,
            r.in_stock == repr.in_stock,
            r.amount_per_unit.spec_quantity() == repr.amount_per_unit@,
            r.origin == repr.origin,
            (match r.special_offer {
                Some((deal, mo)) => repr_deal(repr.new_price, repr.quantity1, repr.quantity2, repr.price)
                    == Ok::<Option<Deal>, crate::deal::DealError>(Some(deal)) && repr.members_only
                    == Some(mo),
                None => repr_deal(repr.new_price, repr.quantity1, repr.quantity2, repr.price)
                    matches Ok(None),
            }),
            r.favorited == repr.favorited,
    {
        let special_offer = try_build_special_offer(
            repr.new_price,
            repr.quantity1,
            repr.quantity2,
            repr.members_only,
            repr.price,
        );
        ProductOverviewVendor {
            id: Id::new(repr.id),
            name: repr.name,
            thumbnail: repr.thumbnail,
            price: repr.price,
            overview: repr.overview,
            in_stock: repr.in_stock as u32,
            amount_per_unit: build_amount(repr.amount_per_unit, repr.measurement_unit),
            origin: repr.origin,
            special_offer,
            favorited: repr.favorited,
        }
    }
}

/// An overview of a customer's favorite product, for display on the
/// favorites page; favoritedness is implied.
#[derive(Debug, PartialEq, Eq)]
pub struct ProductOverviewFavorited {
    /// The ID of the product.
    pub id: Id<Product>,
    /// The name of the product.
    pub name: String,
    /// URL to an image to display on the product card.
    pub thumbnail: String,
    /// The price of the product before any discounts.
    pub price: Decimal,
    /// A short description of the product.
    pub overview: String,
    /// How many units are in stock; may be zero for a favorites list.
    pub in_stock: u32,
    /// How much of the product is included in one unit.
    pub amount_per_unit: Amount,
    /// The name of the vendor.
    pub vendor_name: String,
    /// The origin of the product. May or may not be the name of a country.
    pub origin: String,
    /// The currently active special offer, if any, and whether it only
    /// applies to members.
    pub special_offer: Option<(Deal, bool)>,
}

impl ProductOverviewFavorited {
    /// Assemble the favorites-card read model from a flat row.
    pub fn from_repr(repr: ProductRepr) -> (r: Self)
        requires
            repr.in_stock >= 0,
            repr.amount_per_unit@ >= 0,
            repr.measurement_unit is None ==> repr.amount_per_unit@ % (SCALE as int) == 0,
            offer_repr_consistent(
                repr.new_price,
                repr.quantity1,
                repr.quantity2,
                repr.members_only,
                repr.price,
            ),
            repr.price@ <= PRICE_LIMIT,
            price_bounded(repr.new_price),
        ensures
            r.id@ == repr.id,
            r.name == repr.name,
            r.thumbnail == repr.thumbnail,
            r.price == repr.price,
            r.overview == repr.overview,
            r.in_stock == repr.in_stock,
            r.amount_per_unit.spec_quantity() == repr.amount_per_unit@,
            r.vendor_name == repr.vendor_name,
            r.origin == repr.origin,
            (match r.special_offer {
                Some((deal, mo)) => repr_deal(repr.new_price, repr.quantity1, repr.quantity2, repr.price)
                    == Ok::<Option<Deal>, crate::deal::DealError>(Some(deal)) && repr.members_only
                    == Some(mo),
                None => repr_deal(repr.new_price, repr.quantity1, repr.quantity2, repr.price)
                    matches Ok(None),
            }),
    {
        let special_offer = try_build_special_offer(
            repr.new_price,
            repr.quantity1,
            repr.quantity2,
            repr.members_only,
            repr.price,
        );
        ProductOverviewFavorited {
            id: Id::new(repr.id),
            name: repr.name,
            thumbnail: repr.thumbnail,
            price: repr.price,
            overview: repr.overview,
            in_stock: repr.in_stock as u32,
            amount_per_unit: build_amount(repr.amount_per_unit, repr.measurement_unit),
            vendor_name: repr.vendor_name,
            origin: repr.origin,
            special_offer,
        }
    }
}

/// Information about a product, for display on product pages.
#[derive(Debug, PartialEq, Eq)]
pub struct ProductInfo {
    /// The ID of the product.
    pub id: Id<Product>,
    /// The name of the product.
    pub name: String,
    /// URLs to images of the product; a single copy of the thumbnail when
    /// the stored gallery is empty.
    pub gallery: Vec<String>,
    /// The price of the product before any discounts.
    pub price: Decimal,
    /// A long description of the product.
    pub description: String,
    /// How many units are in stock. Not shown directly, but may be used
    /// to display "low stock".
    pub in_stock: u32,
    /// The product's category and all of its parents, from the root.
    pub category: CategoryPath,
    /// How much of the product is included in one unit.
    pub amount_per_unit: Amount,
    /// Whether the product is visible to customers.
    pub visible: bool,
    /// The ID of the vendor.
    pub vendor_id: Id<Vendor>,
    /// The name of the vendor.
    pub vendor_name: String,
    /// The origin of the product. May or may not be the name of a country.
    pub origin: String,
    /// When the product's entry was created, as a timestamp.
    pub created_at: i64,
    /// When the product was last updated, as a timestamp.
    pub updated_at: i64,
    /// The average rating of the product.
    pub rating: AverageRating,
    /// The currently active special offer, how many times each customer
    /// may use it, and whether it is members-only.
    pub special_offer: Option<(Deal, Option<u32>, bool)>,
    /// Whether the customer favorited the product. Meaningless when no
    /// customer was given to the query.
    pub favorited: bool,
    /// The customer's own rating. Meaningless when no customer was given
    /// to the query (held at one star).
    pub own_rating: Rating,
    /// Whether the customer has ever bought the product; customers rate
    /// only products they bought. Meaningless when no customer was given
    /// to the query.
    pub has_purchased: bool,
}

/// The flat row behind [`ProductInfo`].
#[derive(Debug)]
pub struct ProductInfoRepr {
    /// The name of the product.
    pub name: String,
    /// The stored gallery, possibly empty.
    pub gallery: Vec<String>,
    /// URL to the card image, the gallery fallback.
    pub thumbnail: String,
    /// The undiscounted price.
    pub price: Decimal,
    /// The long description.
    pub description: String,
    /// Units in stock.
    pub in_stock: i32,
    /// The quantity in one unit.
    pub amount_per_unit: Decimal,
    /// The unit of measure, absent for discrete items.
    pub measurement_unit: Option<String>,
    /// The origin of the product.
    pub origin: String,
    /// Whether the product is visible to customers.
    pub visible: bool,
    /// Creation timestamp of the entry.
    pub created_at: i64,
    /// Last-update timestamp.
    pub updated_at: i64,
    /// The active offer's sale price column.
    pub new_price: Option<Decimal>,
    /// The active offer's first quantity column.
    pub quantity1: Option<i32>,
    /// The active offer's second quantity column.
    pub quantity2: Option<i32>,
    /// The active offer's per-customer cap, if any.
    pub limit_per_customer: Option<i32>,
    /// Whether the active offer is members-only, absent without an offer.
    pub members_only: Option<bool>,
    /// The vendor's id.
    pub vendor_id: i32,
    /// The vendor's display name.
    pub vendor_name: String,
    /// The category path as `(id, name)` pairs, from the root.
    pub category_path: Vec<(i32, String)>,
    /// The aggregated mean rating, absent when nothing is rated.
    pub average_rating: Option<Decimal>,
    /// How many ratings were aggregated.
    pub rating_count: i64,
    /// Whether the reading customer favorited the product.
    pub favorited: bool,
    /// The reading customer's own rating, if any.
    pub own_rating: Option<i32>,
    /// Whether the reading customer ever bought the product.
    pub has_purchased: bool,
}

/// The storage invariants a product-page row upholds.
pub open spec fn info_repr_wf(r: ProductInfoRepr) -> bool {
    &&& r.in_stock >= 0
    &&& r.amount_per_unit@ >= 0
    &&& (r.measurement_unit is None ==> r.amount_per_unit@ % (SCALE as int) == 0)
    &&& offer_repr_consistent(r.new_price, r.quantity1, r.quantity2, r.members_only, r.price)
    &&& r.price@ <= PRICE_LIMIT
    &&& price_bounded(r.new_price)
    &&& (r.limit_per_customer matches Some(l) ==> l >= 1)
    &&& r.rating_count >= 0
    &&& (r.average_rating is Some <==> r.rating_count > 0)
    &&& (r.average_rating matches Some(m) ==> SCALE <= m@ <= 5 * (SCALE as int))
    &&& (r.own_rating matches Some(v) ==> 1 <= v <= 5)
}

impl ProductInfo {
    /// Assemble the product-page read model from a flat row. An empty
    /// stored gallery becomes a single copy of the thumbnail; an absent
    /// own rating is held at one star, as it is meaningless without a
    /// reading customer.
    pub fn from_repr(id: Id<Product>, repr: ProductInfoRepr) -> (r: Self)
        requires
            info_repr_wf(repr),
        ensures
            r.id == id,
            r.name == repr.name,
            (if repr.gallery@.len() == 0 {
                r.gallery@ =~= seq![repr.thumbnail]
            } else {
                r.gallery == repr.gallery
            }),
            r.price == repr.price,
            r.description == repr.description,
            r.in_stock == repr.in_stock,
            r.category.segments@.len() == repr.category_path@.len(),
            forall|k: int|
                0 <= k < repr.category_path@.len() ==> (#[trigger] r.category.segments@[k]).0@
                    == repr.category_path@[k].0 && r.category.segments@[k].1
                    == repr.category_path@[k].1,
            r.amount_per_unit.spec_quantity() == repr.amount_per_unit@,
            r.visible == repr.visible,
            r.vendor_id@ == repr.vendor_id,
            r.vendor_name == repr.vendor_name,
            r.origin == repr.origin,
            r.created_at == repr.created_at,
            r.updated_at == repr.updated_at,
            r.rating.spec_count() == repr.rating_count,
            (repr.average_rating matches Some(m) ==> r.rating.spec_rating() == m@),
            (match r.special_offer {
                Some((deal, limit, mo)) => {
                    &&& repr_deal(repr.new_price, repr.quantity1, repr.quantity2, repr.price)
                        == Ok::<Option<Deal>, crate::deal::DealError>(Some(deal))
                    &&& repr.members_only == Some(mo)
                    &&& (match (limit, repr.limit_per_customer) {
                        (Some(l), Some(l0)) => l == l0,
                        (None, None) => true,
                        _ => false,
                    })
                },
                None => repr_deal(repr.new_price, repr.quantity1, repr.quantity2, repr.price)
                    matches Ok(None),
            }),
            r.favorited == repr.favorited,
            r.own_rating@ == (match repr.own_rating {
                Some(v) => v as int,
                None => 1,
            }),
            r.has_purchased == repr.has_purchased,
    {
        let offer = try_build_special_offer(
            repr.new_price,
            repr.quantity1,
            repr.quantity2,
            repr.members_only,
            repr.price,
        );
        let special_offer = match offer {
            Some((deal, mo)) => {
                let limit: Option<u32> = match repr.limit_per_customer {
                    Some(l) => Some(l as u32),
                    None => None,
                };
                Some((deal, limit, mo))
            },
            None => None,
        };
        let gallery = if repr.gallery.len() == 0 {
            let mut g: Vec<String> = Vec::new();
            g.push(repr.thumbnail);
            g
        } else {
            repr.gallery
        };
        let mut segments: Vec<(Id<Category>, String)> = Vec::new();
        let mut k: usize = 0;
        while k < repr.category_path.len()
            invariant
                k <= repr.category_path@.len(),
                segments@.len() == k,
                forall|m: int|
                    0 <= m < k ==> (#[trigger] segments@[m]).0@ == repr.category_path@[m].0
                        && segments@[m].1 == repr.category_path@[m].1,
            decreases repr.category_path@.len() - k,
        {
            let cid = repr.category_path[k].0;
            let cname = repr.category_path[k].1.clone();
            segments.push((Id::new(cid), cname));
            k = k + 1;
        }
        let own_rating = match repr.own_rating {
            Some(v) => {
                match Rating::new(v as u8) {
                    Some(rating) => rating,
                    None => unreached(),
                }
            },
            None => {
                match Rating::new(1) {
                    Some(rating) => rating,
                    None => unreached(),
                }
            },
        };
        ProductInfo {
            id,
            name: repr.name,
            gallery,
            price: repr.price,
            description: repr.description,
            in_stock: repr.in_stock as u32,
            category: CategoryPath { segments },
            amount_per_unit: build_amount(repr.amount_per_unit, repr.measurement_unit),
            visible: repr.visible,
            vendor_id: Id::new(repr.vendor_id),
            vendor_name: repr.vendor_name,
            origin: repr.origin,
            created_at: repr.created_at,
            updated_at: repr.updated_at,
            rating: build_average_rating(repr.average_rating, repr.rating_count),
            special_offer,
            favorited: repr.favorited,
            own_rating,
            has_purchased: repr.has_purchased,
        }
    }
}

/// A record of a customer's purchase. It carries no timestamp of its own:
/// purchases are grouped by timestamp into [`Order`]s.
#[derive(Debug, PartialEq, Eq)]
pub struct Purchase {
    /// How much was paid.
    pub paid: Decimal,
    /// Whether a special offer affected the price.
    pub special_offer_used: bool,
    /// How many units were purchased; always positive.
    pub number: u32,
    /// How much of the product one unit held at the time of purchase.
    pub amount_per_unit: Amount,
    /// The name of the product.
    pub product_name: String,
    /// URL to an image of the product.
    pub thumbnail: String,
    /// The name of the vendor.
    pub vendor_name: String,
}

/// The flat row behind [`Purchase`], with the order timestamp.
#[derive(Debug)]
pub struct PurchaseRepr {
    /// The time of purchase.
    pub time: i64,
    /// How much was paid.
    pub paid: Decimal,
    /// Whether a special offer affected the price.
    pub special_offer_used: bool,
    /// How many units were purchased.
    pub number: i32,
    /// The quantity in one unit at the time of purchase.
    pub amount_per_unit: Decimal,
    /// The unit of measure, absent for discrete items.
    pub measurement_unit: Option<String>,
    /// The name of the product.
    pub product_name: String,
    /// URL to an image of the product.
    pub thumbnail: String,
    /// The name of the vendor.
    pub vendor_name: String,
}

impl Purchase {
    /// Assemble a purchase from a flat row, dropping the timestamp the
    /// grouping step consumes.
    pub fn from_repr(repr: PurchaseRepr) -> (r: Self)
        requires
            repr.number >= 1,
            repr.amount_per_unit@ >= 0,
            repr.measurement_unit is None ==> repr.amount_per_unit@ % (SCALE as int) == 0,
        ensures
            r.paid == repr.paid,
            r.special_offer_used == repr.special_offer_used,
            r.number == repr.number,
            r.amount_per_unit.spec_quantity() == repr.amount_per_unit@,
            r.product_name == repr.product_name,
            r.thumbnail == repr.thumbnail,
            r.vendor_name == repr.vendor_name,
    {
        Purchase {
            paid: repr.paid,
            special_offer_used: repr.special_offer_used,
            number: repr.number as u32,
            amount_per_unit: build_amount(repr.amount_per_unit, repr.measurement_unit),
            product_name: repr.product_name,
            thumbnail: repr.thumbnail,
            vendor_name: repr.vendor_name,
        }
    }
}

/// A completed order: the purchases sharing one checkout timestamp.
#[derive(Debug, PartialEq, Eq)]
pub struct Order {
    /// The time of purchase.
    pub time: i64,
    /// Purchases included in this order.
    pub purchases: Vec<Purchase>,
}

/// An order as mathematical values.
pub struct OrderData {
    /// The time of purchase.
    pub time: int,
    /// The purchases of the order, oldest first.
    pub purchases: Seq<Purchase>,
}

/// The values an order carries.
pub open spec fn order_data(o: Order) -> OrderData {
    OrderData { time: o.time as int, purchases: o.purchases@ }
}

/// Grouping timestamped purchases into orders: each run of consecutive
/// rows sharing a timestamp becomes one order, in input order.
pub open spec fn group_orders_spec(input: Seq<(i64, Purchase)>) -> Seq<OrderData>
    decreases input.len(),
{
    if input.len() == 0 {
        Seq::empty()
    } else {
        let rest = group_orders_spec(input.drop_last());
        let last = input.last();
        if rest.len() > 0 && rest.last().time == last.0 {
            rest.update(
                rest.len() - 1,
                OrderData { time: rest.last().time, purchases: rest.last().purchases.push(last.1) },
            )
        } else {
            rest.push(OrderData { time: last.0 as int, purchases: seq![last.1] })
        }
    }
}

/// Group timestamped purchases into orders: consecutive rows sharing a
/// timestamp merge into one order, so rows sorted by time come out as one
/// order per checkout, ordered as the rows were.
pub fn group_orders(purchases: Vec<(i64, Purchase)>) -> (r: Vec<Order>)
    ensures
        r@.map_values(|o: Order| order_data(o)) == group_orders_spec(purchases@),
{
    let ghost all = purchases@;
    let mut rest = purchases;
    let mut out: Vec<Order> = Vec::new();
    let ghost mut done: int = 0;
    proof {
        assert(all.skip(0) =~= all);
        assert(all.take(0) =~= Seq::<(i64, Purchase)>::empty());
        assert(out@.map_values(|o: Order| order_data(o)) =~= group_orders_spec(all.take(0)));
    }
    while rest.len() > 0
        invariant
            0 <= done <= all.len(),
            rest@ == all.skip(done),
            out@.map_values(|o: Order| order_data(o)) == group_orders_spec(all.take(done)),
        decreases rest@.len(),
    {
        let ghost old_out = out@;
        let (time, p) = rest.remove(0);
        proof {
            assert(all.skip(done).remove(0) =~= all.skip(done + 1));
            assert((time, p) == all[done]);
            assert(all.take(done + 1).drop_last() =~= all.take(done));
            assert(all.take(done + 1).last() == all[done]);
        }
        let n0 = out.len();
        let merge = if n0 > 0 {
            out[n0 - 1].time == time
        } else {
            false
        };
        if merge {
            let mut last = match out.pop() {
                Some(o) => o,
                None => unreached(),
            };
            last.purchases.push(p);
            out.push(last);
            proof {
                let f = |o: Order| order_data(o);
                assert(out@ =~= old_out.update(old_out.len() - 1, out@[out@.len() - 1]));
                assert(out@.map_values(f) =~= old_out.map_values(f).update(
                    old_out.len() - 1,
                    f(out@[out@.len() - 1]),
                ));
                assert(out@.map_values(f) =~= group_orders_spec(all.take(done + 1)));
            }
        } else {
            let mut ps: Vec<Purchase> = Vec::new();
            ps.push(p);
            out.push(Order { time, purchases: ps });
            proof {
                let f = |o: Order| order_data(o);
                assert(out@.map_values(f) =~= old_out.map_values(f).push(f(out@[out@.len() - 1])));
                assert(out@[out@.len() - 1].purchases@ =~= seq![p]);
                assert(out@.map_values(f) =~= group_orders_spec(all.take(done + 1)));
            }
        }
        proof {
            done = done + 1;
        }
    }
    proof {
        assert(all.take(done) =~= all);
    }
    out
}

} // verus!
