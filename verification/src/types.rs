//! Validated value types: ratings, amounts, identifier strings, votes and
//! roles.

use crate::decimal::{Decimal, SCALE};
use vstd::prelude::*;
use vstd::std_specs::iter::IteratorSpec;

verus! {

broadcast use vstd::string::next_postcondition;

/// Whether `s` holds at most `limit` characters (not bytes), counted by
/// walking its character iterator.
fn char_count_at_most(s: &str, limit: usize) -> (r: bool)
    ensures
        r == (s@.len() <= limit),
{
    let mut count: usize = 0;
    let mut it = s.chars();
    proof {
        vstd::string::axiom_spec_iter(s);
        assert(s@.skip(0) =~= s@);
    }
    loop
        invariant
            it.obeys_prophetic_iter_laws(),
            it.remaining() == s@.skip(count as int),
            count <= limit,
            count + it.remaining().len() == s@.len(),
        decreases s@.len() - count,
    {
        match it.next() {
            Some(_c) => {
                if count >= limit {
                    return false;
                }
                count = count + 1;
                proof {
                    assert(s@.skip(count - 1).drop_first() =~= s@.skip(count as int));
                }
            },
            None => {
                return true;
            },
        }
    }
}

/// A string known to hold at most `N` characters (not bytes).
#[derive(Clone, Debug, PartialEq, Eq, PartialOrd, Ord, Hash)]
pub struct BoundedString<const N: usize> {
    /// The validated text.
    text: String,
}

impl<const N: usize> View for BoundedString<N> {
    type V = Seq<char>;

    closed spec fn view(&self) -> Seq<char> {
        self.text@
    }
}

impl<const N: usize> BoundedString<N> {
    /// Verify the character count and construct a `BoundedString` on
    /// success.
    pub fn new(s: String) -> (r: Option<Self>)
        ensures
            r is Some <==> s@.len() <= N,
            r matches Some(b) ==> b@ == s@,
    {
        if char_count_at_most(s.as_str(), N) {
            Some(BoundedString { text: s })
        } else {
            None
        }
    }

    /// The text as a string slice.
    pub fn as_str(&self) -> (r: &str)
        ensures
            r@ == self@,
    {
        self.text.as_str()
    }
}

/// The rating of a product. Will be between 1 and 5.
#[derive(Clone, Copy, Debug, PartialEq, Eq, PartialOrd, Ord, Hash)]
pub struct Rating {
    /// The number of stars.
    stars: u8,
}

impl View for Rating {
    type V = int;

    closed spec fn view(&self) -> int {
        self.stars as int
    }
}

impl Rating {
    /// All ratings hold between one and five stars.
    #[verifier::type_invariant]
    pub closed spec fn inv(self) -> bool {
        1 <= self.stars <= 5
    }

    /// Verify the rating is in range and construct a `Rating` on success.
    pub fn new(r: u8) -> (res: Option<Self>)
        ensures
            res is Some <==> 1 <= r <= 5,
            res matches Some(rating) ==> rating@ == r,
    {
        if 1 <= r && r <= 5 {
            Some(Rating { stars: r })
        } else {
            None
        }
    }

    /// Get the inner numerical rating value.
    pub fn get(self) -> (r: u8)
        ensures
            r == self@,
            1 <= r <= 5,
    {
        proof {
            use_type_invariant(self);
        }
        self.stars
    }
}

/// Quantity of a product, possibly along with a unit, e.g. "4.2 kg".
///
/// If no unit is given, the quantity counts discrete items and must be an
/// integer; with a unit it may be any non-negative decimal. The type is
/// oblivious to any meaning behind the units, so it cannot, for example,
/// handle conversions.
#[derive(Clone, Debug, PartialEq, Eq, Hash)]
pub struct Amount {
    /// The quantity.
    quantity: Decimal,
    /// The unit.
    unit: Option<String>,
}

impl Amount {
    /// The quantity mantissa.
    pub closed spec fn spec_quantity(self) -> int {
        self.quantity@
    }

    /// The unit, if any.
    pub closed spec fn spec_unit(self) -> Option<Seq<char>> {
        match self.unit {
            Some(u) => Some(u@),
            None => None,
        }
    }

    /// The invariant: non-negative, and an integer when unitless.
    pub open spec fn wf(self) -> bool {
        self.spec_quantity() >= 0 && (self.spec_unit() is None ==> self.spec_quantity() % (
        SCALE as int) == 0)
    }

    /// Validate a quantity-and-unit pair: the quantity must be
    /// non-negative, and an integer if no unit is given.
    pub fn new(quantity: Decimal, unit: Option<String>) -> (r: Option<Self>)
        ensures
            r is Some <==> (quantity@ >= 0 && (unit is None ==> quantity@ % (SCALE as int) == 0)),
            r matches Some(a) ==> {
                &&& a.spec_quantity() == quantity@
                &&& (match (a.spec_unit(), unit) {
                    (Some(got), Some(given)) => got == given@,
                    (None, None) => true,
                    _ => false,
                })
                &&& a.wf()
            },
    {
        let zero = Decimal::zero();
        if quantity.lt(&zero) {
            None
        } else if unit.is_some() {
            Some(Amount { quantity, unit })
        } else if quantity.is_integer() {
            Some(Amount { quantity, unit: None })
        } else {
            None
        }
    }

    /// A discrete number of items, without a unit.
    pub fn discrete(quantity: u32) -> (r: Self)
        ensures
            r.spec_quantity() == quantity * SCALE,
            r.spec_unit() is None,
            r.wf(),
    {
        proof {
            assert((quantity * SCALE) % (SCALE as int) == 0) by (nonlinear_arith);
        }
        Amount { quantity: Decimal::from_int(quantity as i64), unit: None }
    }

    /// A measured quantity with its unit.
    pub fn with_unit(quantity: Decimal, unit: String) -> (r: Self)
        requires
            quantity@ >= 0,
        ensures
            r.spec_quantity() == quantity@,
            r.spec_unit() matches Some(u) && u == unit@,
            r.wf(),
    {
        Amount { quantity, unit: Some(unit) }
    }

    /// Get the quantity. If [`unit`](Self::unit) is absent, this is an
    /// integer.
    pub fn quantity(&self) -> (r: Decimal)
        ensures
            r@ == self.spec_quantity(),
    {
        self.quantity
    }

    /// Get the unit. If this is absent, [`quantity`](Self::quantity) is an
    /// integer.
    pub fn unit(&self) -> (r: Option<&str>)
        ensures
            (match (r, self.spec_unit()) {
                (Some(got), Some(u)) => got@ == u,
                (None, None) => true,
                _ => false,
            }),
    {
        match &self.unit {
            Some(u) => Some(u.as_str()),
            None => None,
        }
    }
}

/// The average rating of a product (between 1 and 5), as well as the
/// number of ratings contributing to that score. A count of zero is the
/// canonical "no ratings" state; the mean is meaningless there and held at
/// zero.
#[derive(Clone, Copy, Debug, PartialEq, Eq, Structural)]
pub struct AverageRating {
    /// The mean rating mantissa; meaningful only when `count > 0`.
    rating: Decimal,
    /// The number of ratings contributing to the score.
    count: u64,
}

impl AverageRating {
    /// The mean rating mantissa.
    pub closed spec fn spec_rating(self) -> int {
        self.rating@
    }

    /// The number of contributing ratings.
    pub closed spec fn spec_count(self) -> int {
        self.count as int
    }

    /// The invariant: either no ratings, or a mean within one to five
    /// stars.
    pub open spec fn wf(self) -> bool {
        self.spec_count() == 0 || SCALE <= self.spec_rating() <= 5 * (SCALE as int)
    }

    /// The "no ratings" state.
    pub fn none() -> (r: Self)
        ensures
            r.spec_count() == 0,
            r.wf(),
    {
        AverageRating { rating: Decimal::zero(), count: 0 }
    }

    /// Verify the mean is in range and construct an `AverageRating` on
    /// success; a zero count always succeeds with the canonical empty
    /// state.
    pub fn new(rating: Decimal, count: u64) -> (r: Option<Self>)
        ensures
            r is Some <==> (count == 0 || SCALE <= rating@ <= 5 * (SCALE as int)),
            r matches Some(a) ==> {
                &&& a.spec_count() == count
                &&& a.wf()
                &&& count > 0 ==> a.spec_rating() == rating@
            },
    {
        if count == 0 {
            Some(Self::none())
        } else {
            let one = Decimal::one();
            let five = Decimal::from_int(5);
            if one.le(&rating) && rating.le(&five) {
                Some(AverageRating { rating, count })
            } else {
                None
            }
        }
    }

    /// A single rating, averaged over itself.
    pub fn from_rating(rating: Rating) -> (r: Self)
        ensures
            r.spec_count() == 1,
            r.spec_rating() == rating@ * SCALE,
            r.wf(),
    {
        let stars = rating.get();
        proof {
            assert(SCALE <= (stars as int) * SCALE <= 5 * (SCALE as int)) by (nonlinear_arith)
                requires
                    1 <= stars <= 5,
            ;
        }
        AverageRating { rating: Decimal::from_int(stars as i64), count: 1 }
    }

    /// Get the average rating, if there are any ratings.
    pub fn rating(self) -> (r: Option<Decimal>)
        ensures
            r is Some <==> self.spec_count() > 0,
            r matches Some(d) ==> d@ == self.spec_rating(),
    {
        if self.count > 0 {
            Some(self.rating)
        } else {
            None
        }
    }

    /// Get the number of ratings.
    pub fn count(self) -> (r: u64)
        ensures
            r == self.spec_count(),
    {
        self.count
    }
}

/// URL to the profile picture all administrators use.
pub const ADMIN_PROFILE_PICTURE: &'static str = "";

/// A user's profile picture.
///
/// Customers and vendors set their own; administrators all share the fixed
/// [`ADMIN_PROFILE_PICTURE`].
#[derive(Clone, Debug, PartialEq, Eq)]
pub struct ProfilePicture {
    /// The customer's or vendor's own picture, or absent for an
    /// administrator.
    url: Option<String>,
}

impl ProfilePicture {
    /// The stored URL, absent for an administrator.
    pub closed spec fn spec_url(self) -> Option<Seq<char>> {
        match self.url {
            Some(u) => Some(u@),
            None => None,
        }
    }

    /// Construct a new `ProfilePicture` for a customer or vendor from a
    /// URL.
    pub fn new(url: String) -> (r: Self)
        ensures
            r.spec_url() matches Some(u) && u == url@,
    {
        ProfilePicture { url: Some(url) }
    }

    /// Construct a new `ProfilePicture` for an administrator.
    pub fn admin() -> (r: Self)
        ensures
            r.spec_url() is None,
    {
        ProfilePicture { url: None }
    }

    /// Whether the profile picture is the administrators' fixed one.
    pub fn is_admin(&self) -> (r: bool)
        ensures
            r == (self.spec_url() is None),
    {
        self.url.is_none()
    }

    /// The URL to the profile picture.
    pub fn url(&self) -> (r: &str)
        ensures
            (match self.spec_url() {
                Some(u) => r@ == u,
                None => r@ == ADMIN_PROFILE_PICTURE@,
            }),
    {
        match &self.url {
            Some(u) => u.as_str(),
            None => ADMIN_PROFILE_PICTURE,
        }
    }
}

/// Whether a string is accepted as a username: three to twenty word
/// characters (any script) or dashes. What the pattern accepts is decided
/// by the regex engine; the result depends on the characters alone.
pub uninterp spec fn username_accepted(s: Seq<char>) -> bool;

/// Relies on `regex::Regex::new` and `regex::Regex::is_match` with the
/// anchored username pattern `^[\w-]{3,20}$`: the pattern is fixed, so
/// acceptance is a function of the haystack alone, named
/// [`username_accepted`]. An error from compiling the fixed, valid
/// pattern cannot occur; it is mapped to a rejection rather than a panic.
#[verifier::external_body]
fn matches_username_pattern(s: &str) -> (r: bool)
    ensures
        r == username_accepted(s@),
{
    match regex::Regex::new(r"^[\w-]{3,20}$") {
        Ok(re) => re.is_match(s),
        Err(_) => false,
    }
}

/// A valid username.
///
/// A username may contain letters, numbers, underscores and dashes, and is
/// between 3 and 20 characters long. Other scripts are allowed, so this
/// puts no strict limit on byte length.
#[derive(Debug, PartialEq, Eq, PartialOrd, Ord, Hash)]
pub struct Username {
    /// The validated name.
    name: String,
}

impl Clone for Username {
    fn clone(&self) -> (r: Self)
        ensures
            r@ == self@,
    {
        Username { name: self.name.clone() }
    }
}

impl View for Username {
    type V = Seq<char>;

    closed spec fn view(&self) -> Seq<char> {
        self.name@
    }
}

impl Username {
    /// Verify the format and construct a `Username` on success.
    pub fn new(s: String) -> (r: Option<Self>)
        ensures
            r is Some <==> username_accepted(s@),
            r matches Some(u) ==> u@ == s@,
    {
        if matches_username_pattern(s.as_str()) {
            Some(Username { name: s })
        } else {
            None
        }
    }

    /// The name as a string slice.
    pub fn as_str(&self) -> (r: &str)
        ensures
            r@ == self@,
    {
        self.name.as_str()
    }
}

/// Whether a string is accepted as an email address under the HTML5 rules.
/// What the pattern accepts is decided by the regex engine; the result
/// depends on the characters alone.
pub uninterp spec fn email_accepted(s: Seq<char>) -> bool;

/// Relies on `regex::Regex::new` and `regex::Regex::is_match` with the
/// anchored HTML5 email pattern: the pattern is fixed, so acceptance is a
/// function of the haystack alone, named [`email_accepted`]. An error
/// from compiling the fixed, valid pattern cannot occur; it is mapped to
/// a rejection rather than a panic.
#[verifier::external_body]
fn matches_email_pattern(s: &str) -> (r: bool)
    ensures
        r == email_accepted(s@),
{
    match regex::Regex::new(
        r"^[a-zA-Z0-9.!#$%&'*+/=?^_`{|}~-]+@[a-zA-Z0-9](?:[a-zA-Z0-9-]{0,61}[a-zA-Z0-9])?(?:\.[a-zA-Z0-9](?:[a-zA-Z0-9-]{0,61}[a-zA-Z0-9])?)*$",
    ) {
        Ok(re) => re.is_match(s),
        Err(_) => false,
    }
}

/// A valid email address, according to the HTML5 specification.
///
/// Notably, this is *not* compatible with RFC 5322.
#[derive(Clone, Debug, PartialEq, Eq, PartialOrd, Ord, Hash)]
pub struct Email {
    /// The validated address.
    address: String,
}

impl View for Email {
    type V = Seq<char>;

    closed spec fn view(&self) -> Seq<char> {
        self.address@
    }
}

impl Email {
    /// Verify the format and construct an `Email` on success.
    pub fn new(s: String) -> (r: Option<Self>)
        ensures
            r is Some <==> email_accepted(s@),
            r matches Some(e) ==> e@ == s@,
    {
        if matches_email_pattern(s.as_str()) {
            Some(Email { address: s })
        } else {
            None
        }
    }

    /// The address as a string slice.
    pub fn as_str(&self) -> (r: &str)
        ensures
            r@ == self@,
    {
        self.address.as_str()
    }
}

/// Client-side session state: the ids of the products in the cart and of
/// the favorites, as the UI caches them between reads.
#[derive(Clone, Debug, PartialEq, Eq)]
pub struct GlobalState {
    /// Products currently in the shopping cart.
    pub cart_items: Vec<i32>,
    /// Products marked as favorites.
    pub favorites: Vec<i32>,
}

/// A vote on a review or comment.
#[derive(Clone, Copy, Debug, PartialEq, Eq, PartialOrd, Ord, Structural)]
pub enum Vote {
    /// The user disliked the review or comment. Counts as -1 for tallying.
    Dislike,
    /// The user liked the review or comment. Counts as 1 for tallying.
    Like,
}

/// The role of a user.
#[derive(Clone, Copy, Debug, PartialEq, Eq, Hash, Structural)]
pub enum Role {
    /// The user is a customer.
    Customer,
    /// The user is a vendor.
    Vendor,
    /// The user is a site administrator.
    Administrator,
}

} // verus!
