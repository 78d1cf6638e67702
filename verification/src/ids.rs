//! Type-safe row identifiers.
//!
//! An [`Id`] wraps the raw `i32` key a row is stored under, tagged with a
//! marker type naming the table it belongs to, so a review id cannot be
//! passed where a product id is expected. The only way across kinds is the
//! explicit widening of a role-specific user id to a generic one.

use core::marker::PhantomData;
use vstd::prelude::*;

verus! {

/// Restricts which marker types may tag an [`Id`].
pub trait Sealed {}

/// A type that can be used as an [`Id`] marker.
pub trait Key: Sealed {}

/// Marker trait shared by the user-role id markers.
pub trait UserSuper {}

/// Type-safe ID used as primary key by the storage layer.
///
/// An ID is valid while a row exists under it; the engine never checks
/// validity, it only carries ids through.
#[derive(Debug)]
pub struct Id<T: Key> {
    /// The raw key.
    raw: i32,
    /// The table the key belongs to.
    kind: PhantomData<T>,
}

impl<T: Key> View for Id<T> {
    type V = int;

    closed spec fn view(&self) -> int {
        self.raw as int
    }
}

impl<T: Key> Clone for Id<T> {
    fn clone(&self) -> (r: Self)
        ensures
            r@ == self@,
    {
        Id { raw: self.raw, kind: PhantomData }
    }
}

impl<T: Key> Copy for Id<T> {

}

impl<T: Key> Id<T> {
    /// Wrap a raw key fetched from storage.
    pub fn new(raw: i32) -> (r: Self)
        ensures
            r@ == raw,
    {
        Id { raw, kind: PhantomData }
    }

    /// Get the inner type-erased ID.
    pub fn get(self) -> (r: i32)
        ensures
            r == self@,
    {
        self.raw
    }
}

impl<T: Key> PartialEq for Id<T> {
    fn eq(&self, other: &Self) -> (r: bool)
        ensures
            r == (self@ == other@),
    {
        self.raw == other.raw
    }
}

impl<T: Key> Eq for Id<T> {

}

impl<T: Key> vstd::std_specs::cmp::PartialEqSpecImpl for Id<T> {
    open spec fn obeys_eq_spec() -> bool {
        true
    }

    open spec fn eq_spec(&self, other: &Self) -> bool {
        self@ == other@
    }
}

impl<T: Key> From<i32> for Id<T> {
    fn from(raw: i32) -> (r: Self)
        ensures
            r@ == raw,
    {
        Id { raw, kind: PhantomData }
    }
}

impl<T: Key> vstd::std_specs::convert::FromSpecImpl<i32> for Id<T> {
    open spec fn obeys_from_spec() -> bool {
        true
    }

    closed spec fn from_spec(raw: i32) -> Self {
        Id { raw, kind: PhantomData }
    }
}

/// Marker for generic user IDs.
#[derive(Clone, Copy, Debug, Default, PartialEq, Eq, Hash)]
pub struct User;

impl Sealed for User {

}

impl Key for User {

}

impl UserSuper for User {

}

/// Marker for customer IDs.
#[derive(Clone, Copy, Debug, Default, PartialEq, Eq, Hash)]
pub struct Customer;

impl Sealed for Customer {

}

impl Key for Customer {

}

impl UserSuper for Customer {

}

impl Id<Customer> {
    /// Widen to a generic user id.
    pub fn widen(self) -> (r: Id<User>)
        ensures
            r@ == self@,
    {
        Id { raw: self.raw, kind: PhantomData }
    }
}

/// Marker for vendor IDs.
#[derive(Clone, Copy, Debug, Default, PartialEq, Eq, Hash)]
pub struct Vendor;

impl Sealed for Vendor {

}

impl Key for Vendor {

}

impl UserSuper for Vendor {

}

impl Id<Vendor> {
    /// Widen to a generic user id.
    pub fn widen(self) -> (r: Id<User>)
        ensures
            r@ == self@,
    {
        Id { raw: self.raw, kind: PhantomData }
    }
}

/// Marker for administrator IDs.
#[derive(Clone, Copy, Debug, Default, PartialEq, Eq, Hash)]
pub struct Administrator;

impl Sealed for Administrator {

}

impl Key for Administrator {

}

impl UserSuper for Administrator {

}

impl Id<Administrator> {
    /// Widen to a generic user id.
    pub fn widen(self) -> (r: Id<User>)
        ensures
            r@ == self@,
    {
        Id { raw: self.raw, kind: PhantomData }
    }
}

/// Marker for product IDs.
#[derive(Clone, Copy, Debug, Default, PartialEq, Eq, Hash)]
pub struct Product;

impl Sealed for Product {

}

impl Key for Product {

}

/// Marker for category IDs.
#[derive(Clone, Copy, Debug, Default, PartialEq, Eq, Hash)]
pub struct Category;

impl Sealed for Category {

}

impl Key for Category {

}

/// Marker for review IDs.
#[derive(Clone, Copy, Debug, Default, PartialEq, Eq, Hash)]
pub struct Review;

impl Sealed for Review {

}

impl Key for Review {

}

/// Marker for comment IDs.
#[derive(Clone, Copy, Debug, Default, PartialEq, Eq, Hash)]
pub struct Comment;

impl Sealed for Comment {

}

impl Key for Comment {

}

/// Marker for special offer IDs.
#[derive(Clone, Copy, Debug, Default, PartialEq, Eq, Hash)]
pub struct SpecialOffer;

impl Sealed for SpecialOffer {

}

impl Key for SpecialOffer {

}

} // verus!
