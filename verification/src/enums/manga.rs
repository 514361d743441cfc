//! Filters of the series listing.

pub mod genre;
pub mod kind;
pub mod order;
pub mod status;

pub use genre::Genre;
pub use kind::Type;
pub use order::Order;
pub use status::Status;
