//! The persisted records and the tables that hold them.

use vstd::prelude::*;

pub mod excluded_artist;
pub mod music_genre;
pub mod music_search_progress;

verus! {

/// `chrono::NaiveDateTime`, the type of the storage's timestamps. A value is
/// carried through unread.
#[verifier::external_type_specification]
#[verifier::external_body]
pub struct ExNaiveDateTime(chrono::NaiveDateTime);

} // verus!
