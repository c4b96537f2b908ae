//! The account endpoints.

pub mod token;
