//! Fixed values of the service.

pub mod spotify;
