//! Typed extraction of manga-site pages from parsed HTML documents.
//!
//! A page is parsed once by `scraper`; every record of this crate is then read
//! out of that tree by selector lookups, scalar conversions and list policies
//! whose results are stated in contracts and proved.

pub mod decimal_order;
pub mod dom;
pub mod enums;
pub mod error;
pub mod parser;
pub mod scalar;
pub mod text;
pub mod types;
