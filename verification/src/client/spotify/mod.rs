//! The streaming service's web API.

pub mod api;
pub mod v1;
