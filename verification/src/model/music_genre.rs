//! The genre vocabulary that drives discovery: reference data, read only.

use chrono::NaiveDateTime;
use vstd::prelude::*;

verus! {

/// One genre: its key in storage, its display name and the key it is
/// searched by.
#[derive(Debug, PartialEq, Eq)]
pub struct MusicGenre {
    pub id: u32,
    pub name: String,
    pub search_key: String,
    pub created_at: NaiveDateTime,
    pub updated_at: NaiveDateTime,
}

impl Clone for MusicGenre {
    fn clone(&self) -> (copy: Self)
        ensures
            copy == *self,
    {
        MusicGenre {
            id: self.id,
            name: self.name.clone(),
            search_key: self.search_key.clone(),
            created_at: self.created_at,
            updated_at: self.updated_at,
        }
    }
}

/// The first of `genres` with the identifier `id`, if there is one.
pub open spec fn genre_with(genres: Seq<MusicGenre>, id: u32) -> Option<MusicGenre>
    decreases genres.len(),
{
    if genres.len() == 0 {
        None
    } else if genres[0].id == id {
        Some(genres[0])
    } else {
        genre_with(genres.drop_first(), id)
    }
}

/// A genre found by its identifier has that identifier and is one of the
/// genres searched; none is found only where no genre has the identifier.
pub proof fn lemma_genre_with(genres: Seq<MusicGenre>, id: u32)
    ensures
        match genre_with(genres, id) {
            Some(genre) => genre.id == id && genres.contains(genre),
            None => forall|i: int| 0 <= i < genres.len() ==> (#[trigger] genres[i]).id != id,
        },
    decreases genres.len(),
{
    if genres.len() > 0 && genres[0].id != id {
        let rest = genres.drop_first();
        lemma_genre_with(rest, id);
        match genre_with(rest, id) {
            Some(genre) => {
                let i = choose|i: int| 0 <= i < rest.len() && rest[i] == genre;
                assert(genres[i + 1] == genre);
            },
            None => {
                assert forall|i: int| 0 <= i < genres.len() implies (#[trigger] genres[i]).id
                    != id by {
                    if i > 0 {
                        assert(rest[i - 1] == genres[i]);
                    }
                }
            },
        }
    } else if genres.len() > 0 {
        assert(genres[0] == genres[0]);
    }
}

impl MusicGenre {
    /// The genre with the identifier `id` among `genres`; none where no
    /// genre has it.
    pub fn find_by_id(genres: &[MusicGenre], id: u32) -> (found: Option<MusicGenre>)
        ensures
            found == genre_with(genres@, id),
    {
        let mut i: usize = 0;
        assert(genres@.skip(0) =~= genres@);
        while i < genres.len()
            invariant
                i <= genres.len(),
                genre_with(genres@, id) == genre_with(genres@.skip(i as int), id),
            decreases genres.len() - i,
        {
            if genres[i].id == id {
                return Some(genres[i].clone());
            }
            assert(genres@.skip(i as int).drop_first() =~= genres@.skip(i + 1));
            i += 1;
        }
        None
    }
}

} // verus!
