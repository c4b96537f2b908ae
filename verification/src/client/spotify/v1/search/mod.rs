//! Catalogue search.

pub mod artist;
