//! Endpoints below one artist.

pub mod top_tracks;
