//! Core engine of a marketplace catalog: exact-decimal pricing with special
//! offer deals, and reconstruction of nested category and comment trees from
//! flat relational rows.
//!
//! Everything here is pure: no I/O, no shared state. Callers fetch rows,
//! hand them to the engine, and render the structures it returns.

mod categories;
mod deal;
mod decimal;
mod ids;
mod order;
mod products;
mod reviews;
mod types;

pub use categories::CategoryPath;
pub use categories::CategoryRow;
pub use categories::CategoryTree;
pub use categories::TreeError;
pub use categories::category_trees;
pub use deal::Deal;
pub use deal::DealError;
pub use deal::PRICE_LIMIT;
pub use decimal::Decimal;
pub use decimal::SCALE;
pub use ids::Administrator;
pub use ids::Category;
pub use ids::Comment;
pub use ids::Customer;
pub use ids::Id;
pub use ids::Key;
pub use ids::Product;
pub use ids::Review;
pub use ids::Sealed;
pub use ids::SpecialOffer;
pub use ids::User;
pub use ids::UserSuper;
pub use ids::Vendor;
pub use products::Order;
pub use products::ProductInfo;
pub use products::ProductInfoRepr;
pub use products::ProductOverview;
pub use products::ProductOverviewDiscounted;
pub use products::ProductOverviewFavorited;
pub use products::ProductOverviewVendor;
pub use products::ProductRepr;
pub use products::Purchase;
pub use products::PurchaseRepr;
pub use products::build_amount;
pub use products::build_average_rating;
pub use products::group_orders;
pub use products::try_build_special_offer;
pub use reviews::CommentRole;
pub use reviews::CommentRow;
pub use reviews::CommentTree;
pub use reviews::CustomerReview;
pub use reviews::CustomerReviewRow;
pub use reviews::OwnReview;
pub use reviews::OwnReviewRow;
pub use reviews::ProductReview;
pub use reviews::ReviewLog;
pub use reviews::ReviewRow;
pub use reviews::attach_comment_trees;
pub use reviews::attach_own_comment_trees;
pub use reviews::build_pfp;
pub use reviews::comment_trees;
pub use types::ADMIN_PROFILE_PICTURE;
pub use types::Amount;
pub use types::AverageRating;
pub use types::BoundedString;
pub use types::Email;
pub use types::GlobalState;
pub use types::ProfilePicture;
pub use types::Rating;
pub use types::Role;
pub use types::Username;
pub use types::Vote;
