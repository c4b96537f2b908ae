//! Where the streaming service is reached and how it pages.

use vstd::prelude::*;

verus! {

/// Scheme and host in front of every endpoint path.
pub const API_BASE_URL: &'static str = "https://api.spotify.com";

/// Number of artists asked for per page of a genre search.
pub const PAGE_SIZE: u32 = 20;

/// Largest page size the search endpoint accepts.
pub const MAX_LIMIT: u32 = 50;

} // verus!
