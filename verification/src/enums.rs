//! The site's filter vocabularies.

pub mod manga;
