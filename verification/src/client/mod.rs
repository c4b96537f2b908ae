//! Clients of outside services, as descriptions of the requests to send.

pub mod request;
pub mod spotify;
