//! Version 1 of the catalogue and player endpoints.

pub mod artists;
pub mod me;
pub mod search;
