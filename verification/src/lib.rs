//! Verified core of a tool server for discovering artists on a music
//! streaming service: request building, cursor and offset pagination,
//! the exclusion list and the resumable per-genre search progress.

pub mod client;
pub mod constant;
pub mod discovery;
pub mod error;
pub mod model;
pub mod outside;
pub mod text;
pub mod tool;
