//! The search progress of each genre: how many pages of its search have
//! been consumed. The table holds at most one row per genre, so a genre's
//! search resumes where it stopped, whatever happened in between.
//!
//! [`ProgressTable`] is the table as this crate pictures it. What a lookup
//! and a store do to it is stated exactly, and the laws of the progress are
//! proved of it: storing is idempotent, and every advance counts one. The
//! statements against the real storage run outside the crate.

use crate::error::{Failure, FailureView, Operation};
use chrono::NaiveDateTime;
use vstd::prelude::*;

verus! {

/// The progress row of one genre.
#[derive(Clone, Copy, Debug, PartialEq, Eq)]
pub struct MusicSearchProgress {
    pub id: u32,
    pub music_genre_id: u32,
    pub position: u32,
    pub created_at: NaiveDateTime,
    pub updated_at: NaiveDateTime,
}

/// The position to store for a genre.
#[derive(Clone, Copy, Debug, PartialEq, Eq)]
pub struct UpsertInput {
    pub position: u32,
}

impl UpsertInput {
    /// The input that stores `position`.
    pub fn new(position: u32) -> (input: Self)
        ensures
            input.position == position,
    {
        Self { position }
    }

    /// The input that starts a genre: position zero, no page consumed.
    pub fn start() -> (input: Self)
        ensures
            input.position == 0,
    {
        Self { position: 0 }
    }
}

/// No two of `rows` belong to one genre.
pub open spec fn one_row_per_genre(rows: Seq<MusicSearchProgress>) -> bool {
    forall|i: int, j: int|
        0 <= i < j < rows.len() ==> (#[trigger] rows[i]).music_genre_id != (
        #[trigger] rows[j]).music_genre_id
}

/// Whether one of `rows` belongs to the genre.
pub open spec fn has_genre(rows: Seq<MusicSearchProgress>, music_genre_id: u32) -> bool {
    exists|i: int| 0 <= i < rows.len() && (#[trigger] rows[i]).music_genre_id == music_genre_id
}

/// The place of a row of the genre among `rows`, where there is one.
pub open spec fn place(rows: Seq<MusicSearchProgress>, music_genre_id: u32) -> int {
    choose|i: int| 0 <= i < rows.len() && (#[trigger] rows[i]).music_genre_id == music_genre_id
}

/// The position stored for the genre, if it has a row.
pub open spec fn stored(rows: Seq<MusicSearchProgress>, music_genre_id: u32) -> Option<u32> {
    if has_genre(rows, music_genre_id) {
        Some(rows[place(rows, music_genre_id)].position)
    } else {
        None
    }
}

/// Number of rows that belong to the genre.
pub open spec fn rows_of(rows: Seq<MusicSearchProgress>, music_genre_id: u32) -> nat {
    rows.filter(|row: MusicSearchProgress| row.music_genre_id == music_genre_id).len()
}

/// The rows after `position` is stored for the genre at the time `now`: the
/// genre's row is overwritten where it exists, and a row with the identifier
/// `fresh_id` is appended where it does not.
pub open spec fn upserted(
    rows: Seq<MusicSearchProgress>,
    music_genre_id: u32,
    position: u32,
    fresh_id: u32,
    now: NaiveDateTime,
) -> Seq<MusicSearchProgress> {
    if has_genre(rows, music_genre_id) {
        let at = place(rows, music_genre_id);
        rows.update(at, MusicSearchProgress { position, updated_at: now, ..rows[at] })
    } else {
        rows.push(
            MusicSearchProgress {
                id: fresh_id,
                music_genre_id,
                position,
                created_at: now,
                updated_at: now,
            },
        )
    }
}

/// The position a search resumes at: the stored one, or the start.
pub open spec fn resume_at(found: Option<u32>) -> u32 {
    match found {
        Some(position) => position,
        None => 0,
    }
}

/// The rows after the genre's position is advanced by one page.
pub open spec fn advanced(
    rows: Seq<MusicSearchProgress>,
    music_genre_id: u32,
    fresh_id: u32,
    now: NaiveDateTime,
) -> Seq<MusicSearchProgress>
    recommends
        resume_at(stored(rows, music_genre_id)) < u32::MAX,
{
    upserted(
        rows,
        music_genre_id,
        (resume_at(stored(rows, music_genre_id)) + 1) as u32,
        fresh_id,
        now,
    )
}

/// The rows after one advance of the genre for each of `fresh_ids`, at the
/// matching time of `times`.
pub open spec fn advanced_times(
    rows: Seq<MusicSearchProgress>,
    music_genre_id: u32,
    fresh_ids: Seq<u32>,
    times: Seq<NaiveDateTime>,
) -> Seq<MusicSearchProgress>
    recommends
        fresh_ids.len() == times.len(),
    decreases fresh_ids.len(),
{
    if fresh_ids.len() == 0 {
        rows
    } else {
        advanced(
            advanced_times(rows, music_genre_id, fresh_ids.drop_last(), times.drop_last()),
            music_genre_id,
            fresh_ids.last(),
            times.last(),
        )
    }
}

/// The cause reported when the table has no identifier left for a new row.
pub open spec fn out_of_ids() -> Seq<char> {
    "no identifier is left for a new row"@
}

/// The cause reported when a position cannot be advanced any further.
pub open spec fn out_of_range() -> Seq<char> {
    "the position is out of range"@
}

/// The progress table: at most one row per genre, each row under an
/// identifier of its own that the table hands out in rising order.
pub struct ProgressTable {
    rows: Vec<MusicSearchProgress>,
    last_id: u32,
}

impl View for ProgressTable {
    type V = Seq<MusicSearchProgress>;

    closed spec fn view(&self) -> Seq<MusicSearchProgress> {
        self.rows@
    }
}

impl ProgressTable {
    #[verifier::type_invariant]
    spec fn well_formed(&self) -> bool {
        &&& one_row_per_genre(self.rows@)
        &&& forall|i: int| 0 <= i < self.rows@.len() ==> (#[trigger] self.rows@[i]).id <= self.last_id
    }

    /// The identifier handed out last; zero before the first.
    pub closed spec fn last_id(&self) -> u32 {
        self.last_id
    }

    /// The empty table.
    pub fn new() -> (table: Self)
        ensures
            table@ == Seq::<MusicSearchProgress>::empty(),
            table.last_id() == 0,
    {
        ProgressTable { rows: Vec::new(), last_id: 0 }
    }

    /// An empty table whose identifiers go on after `last_id`, as in a
    /// storage that has held rows before.
    pub fn starting_after(last_id: u32) -> (table: Self)
        ensures
            table@ == Seq::<MusicSearchProgress>::empty(),
            table.last_id() == last_id,
    {
        ProgressTable { rows: Vec::new(), last_id }
    }

    /// Number of rows.
    pub fn len(&self) -> (len: usize)
        ensures
            len == self@.len(),
            one_row_per_genre(self@),
    {
        proof {
            use_type_invariant(self);
        }
        self.rows.len()
    }

    /// Where the genre's row stands among the rows, if it has one.
    fn locate(&self, music_genre_id: u32) -> (at: Option<usize>)
        ensures
            one_row_per_genre(self@),
            match at {
                Some(at) => {
                    &&& at < self@.len()
                    &&& self@[at as int].music_genre_id == music_genre_id
                    &&& has_genre(self@, music_genre_id)
                    &&& place(self@, music_genre_id) == at
                },
                None => !has_genre(self@, music_genre_id),
            },
    {
        proof {
            use_type_invariant(self);
        }
        let mut i: usize = 0;
        while i < self.rows.len()
            invariant
                i <= self.rows.len(),
                one_row_per_genre(self.rows@),
                forall|k: int| 0 <= k < i ==> (#[trigger] self.rows@[k]).music_genre_id != music_genre_id,
            decreases self.rows.len() - i,
        {
            if self.rows[i].music_genre_id == music_genre_id {
                proof {
                    lemma_place(self.rows@, music_genre_id, i as int);
                }
                return Some(i);
            }
            i += 1;
        }
        None
    }
}

impl MusicSearchProgress {
    /// The row of the genre; none where the genre was never searched.
    pub fn find_by_music_genre_id(table: &ProgressTable, music_genre_id: u32) -> (found: Option<
        Self,
    >)
        ensures
            match found {
                Some(row) => {
                    &&& has_genre(table@, music_genre_id)
                    &&& row == table@[place(table@, music_genre_id)]
                    &&& row.music_genre_id == music_genre_id
                    &&& stored(table@, music_genre_id) == Some(row.position)
                },
                None => {
                    &&& !has_genre(table@, music_genre_id)
                    &&& stored(table@, music_genre_id).is_none()
                },
            },
    {
        match table.locate(music_genre_id) {
            Some(at) => Some(table.rows[at]),
            None => None,
        }
    }

    /// Stores the position of `input` for the genre at the time `now`, and
    /// gives the genre's row as it then stands. A row that exists is
    /// overwritten, whatever it held; a genre without a row gets one. Only a
    /// new row can be refused, when the table has handed out its last
    /// identifier; the table is then left as it was.
    pub fn upsert(
        table: &mut ProgressTable,
        music_genre_id: u32,
        input: &UpsertInput,
        now: NaiveDateTime,
    ) -> (saved: Result<Self, Failure>)
        ensures
            one_row_per_genre(final(table)@),
            match saved {
                Ok(row) => {
                    &&& has_genre(old(table)@, music_genre_id) || old(table).last_id() < u32::MAX
                    &&& final(table)@ == upserted(
                        old(table)@,
                        music_genre_id,
                        input.position,
                        (old(table).last_id() + 1) as u32,
                        now,
                    )
                    &&& has_genre(final(table)@, music_genre_id)
                    &&& row == final(table)@[place(final(table)@, music_genre_id)]
                    &&& row.music_genre_id == music_genre_id
                    &&& row.position == input.position
                    &&& final(table).last_id() == if has_genre(old(table)@, music_genre_id) {
                        old(table).last_id()
                    } else {
                        (old(table).last_id() + 1) as u32
                    }
                },
                Err(failure) => {
                    &&& !has_genre(old(table)@, music_genre_id)
                    &&& old(table).last_id() == u32::MAX
                    &&& failure@ == (FailureView::StorageFailure {
                        operation: Operation::InsertProgress,
                        cause: out_of_ids(),
                    })
                    &&& final(table)@ == old(table)@
                    &&& final(table).last_id() == old(table).last_id()
                },
            },
    {
        proof {
            use_type_invariant(&*table);
        }
        let at = table.locate(music_genre_id);
        if at.is_none() && table.last_id == u32::MAX {
            return Err(
                Failure::storage(Operation::InsertProgress, "no identifier is left for a new row"),
            );
        }
        let mut taken = ProgressTable::new();
        core::mem::swap(table, &mut taken);
        let ProgressTable { mut rows, last_id } = taken;
        match at {
            Some(at) => {
                let row = MusicSearchProgress {
                    position: input.position,
                    updated_at: now,
                    ..rows[at]
                };
                rows.set(at, row);
                *table = ProgressTable { rows, last_id };
                proof {
                    lemma_place(table@, music_genre_id, at as int);
                }
                Ok(row)
            },
            None => {
                let row = MusicSearchProgress {
                    id: last_id + 1,
                    music_genre_id,
                    position: input.position,
                    created_at: now,
                    updated_at: now,
                };
                rows.push(row);
                *table = ProgressTable { rows, last_id: last_id + 1 };
                proof {
                    lemma_place(table@, music_genre_id, table@.len() - 1);
                }
                Ok(row)
            },
        }
    }

    /// Advances the genre by one page at the time `now`: the position after
    /// the stored one is stored, and a genre without a row counts as stored
    /// at the start. It is refused, and the table left as it was, when the
    /// stored position is the last one that fits, or when the genre needs a
    /// new row and the table has handed out its last identifier.
    pub fn advance(table: &mut ProgressTable, music_genre_id: u32, now: NaiveDateTime) -> (saved:
        Result<Self, Failure>)
        ensures
            one_row_per_genre(final(table)@),
            match saved {
                Ok(row) => {
                    &&& resume_at(stored(old(table)@, music_genre_id)) < u32::MAX
                    &&& has_genre(old(table)@, music_genre_id) || old(table).last_id() < u32::MAX
                    &&& final(table)@ == advanced(
                        old(table)@,
                        music_genre_id,
                        (old(table).last_id() + 1) as u32,
                        now,
                    )
                    &&& stored(final(table)@, music_genre_id) == Some(row.position)
                    &&& row.music_genre_id == music_genre_id
                    &&& row.position == resume_at(stored(old(table)@, music_genre_id)) + 1
                },
                Err(failure) => {
                    &&& final(table)@ == old(table)@
                    &&& final(table).last_id() == old(table).last_id()
                    &&& if stored(old(table)@, music_genre_id) == Some(u32::MAX) {
                        failure@ == (FailureView::StorageFailure {
                            operation: Operation::UpdateProgress,
                            cause: out_of_range(),
                        })
                    } else {
                        &&& !has_genre(old(table)@, music_genre_id)
                        &&& old(table).last_id() == u32::MAX
                        &&& failure@ == (FailureView::StorageFailure {
                            operation: Operation::InsertProgress,
                            cause: out_of_ids(),
                        })
                    }
                },
            },
    {
        let found = Self::find_by_music_genre_id(table, music_genre_id);
        match next_input(found) {
            Ok(input) => Self::upsert(table, music_genre_id, &input, now),
            Err(failure) => {
                proof {
                    use_type_invariant(&*table);
                }
                Err(failure)
            },
        }
    }
}

/// What to store to advance a genre whose row is `found`: the position
/// after the stored one, counting a genre without a row as stored at the
/// start. Only the last position that fits cannot be advanced.
pub fn next_input(found: Option<MusicSearchProgress>) -> (input: Result<UpsertInput, Failure>)
    ensures
        match input {
            Ok(input) => {
                &&& position_of(found) < u32::MAX
                &&& input.position == position_of(found) + 1
            },
            Err(failure) => {
                &&& position_of(found) == u32::MAX
                &&& failure@ == (FailureView::StorageFailure {
                    operation: Operation::UpdateProgress,
                    cause: out_of_range(),
                })
            },
        },
{
    let position = match found {
        Some(row) => row.position,
        None => 0,
    };
    if position == u32::MAX {
        Err(Failure::storage(Operation::UpdateProgress, "the position is out of range"))
    } else {
        Ok(UpsertInput::new(position + 1))
    }
}

/// The position a search resumes at for the row `found`.
pub open spec fn position_of(found: Option<MusicSearchProgress>) -> u32 {
    match found {
        Some(row) => row.position,
        None => 0,
    }
}

/// In rows with one row per genre, a row of the genre stands at the
/// genre's place.
pub proof fn lemma_place(rows: Seq<MusicSearchProgress>, music_genre_id: u32, at: int)
    requires
        one_row_per_genre(rows),
        0 <= at < rows.len(),
        rows[at].music_genre_id == music_genre_id,
    ensures
        has_genre(rows, music_genre_id),
        place(rows, music_genre_id) == at,
        stored(rows, music_genre_id) == Some(rows[at].position),
{
    let chosen = place(rows, music_genre_id);
    if chosen < at {
        assert(rows[chosen].music_genre_id != rows[at].music_genre_id);
    } else if at < chosen {
        assert(rows[at].music_genre_id != rows[chosen].music_genre_id);
    }
}

/// Storing a position keeps one row per genre, makes that position the
/// genre's stored one, adds a row only for a genre that had none, and
/// leaves what is stored for every other genre.
pub proof fn lemma_upserted(
    rows: Seq<MusicSearchProgress>,
    music_genre_id: u32,
    position: u32,
    fresh_id: u32,
    now: NaiveDateTime,
)
    requires
        one_row_per_genre(rows),
    ensures
        one_row_per_genre(upserted(rows, music_genre_id, position, fresh_id, now)),
        stored(upserted(rows, music_genre_id, position, fresh_id, now), music_genre_id) == Some(
            position,
        ),
        upserted(rows, music_genre_id, position, fresh_id, now).len() == if has_genre(
            rows,
            music_genre_id,
        ) {
            rows.len()
        } else {
            rows.len() + 1
        },
        forall|other: u32|
            other != music_genre_id ==> #[trigger] stored(
                upserted(rows, music_genre_id, position, fresh_id, now),
                other,
            ) == stored(rows, other),
{
    let after = upserted(rows, music_genre_id, position, fresh_id, now);
    let at = if has_genre(rows, music_genre_id) {
        place(rows, music_genre_id)
    } else {
        rows.len() as int
    };
    assert(after[at].music_genre_id == music_genre_id);
    assert forall|i: int| 0 <= i < after.len() && i != at implies (#[trigger] after[i]) == rows[i] by {}
    assert(one_row_per_genre(after)) by {
        assert forall|i: int, j: int| 0 <= i < j < after.len() implies (#[trigger] after[i]).music_genre_id
            != (#[trigger] after[j]).music_genre_id by {
            if i != at && j != at {
                assert(rows[i].music_genre_id != rows[j].music_genre_id);
            } else if has_genre(rows, music_genre_id) {
                assert(rows[i].music_genre_id != rows[j].music_genre_id);
            } else {
                assert(rows[i].music_genre_id != music_genre_id);
            }
        }
    }
    lemma_place(after, music_genre_id, at);
    assert forall|other: u32| other != music_genre_id implies #[trigger] stored(after, other)
        == stored(rows, other) by {
        if has_genre(rows, other) {
            let there = place(rows, other);
            assert(after[there] == rows[there]);
            lemma_place(after, other, there);
        } else if has_genre(after, other) {
            let there = place(after, other);
            assert(after[there] == rows[there]);
        }
    }
}

/// With one row per genre, a genre has one row or none.
pub proof fn lemma_rows_of(rows: Seq<MusicSearchProgress>, music_genre_id: u32)
    requires
        one_row_per_genre(rows),
    ensures
        rows_of(rows, music_genre_id) == if has_genre(rows, music_genre_id) {
            1nat
        } else {
            0nat
        },
    decreases rows.len(),
{
    reveal(Seq::filter);
    if rows.len() > 0 {
        let front = rows.drop_last();
        assert forall|i: int, j: int| 0 <= i < j < front.len() implies (#[trigger] front[i]).music_genre_id
            != (#[trigger] front[j]).music_genre_id by {
            assert(front[i] == rows[i] && front[j] == rows[j]);
        }
        lemma_rows_of(front, music_genre_id);
        if rows.last().music_genre_id == music_genre_id {
            assert(rows[rows.len() - 1].music_genre_id == music_genre_id);
            if has_genre(front, music_genre_id) {
                let there = place(front, music_genre_id);
                assert(rows[there].music_genre_id != rows[rows.len() - 1].music_genre_id);
            }
        } else if has_genre(rows, music_genre_id) {
            let there = place(rows, music_genre_id);
            assert(front[there].music_genre_id == music_genre_id);
        } else if has_genre(front, music_genre_id) {
            let there = place(front, music_genre_id);
            assert(rows[there].music_genre_id == music_genre_id);
        }
    }
}

/// Storing is idempotent and the last writer wins: after two stores for one
/// genre the table holds a single row for it, no more rows than after the
/// first store, and the position of the second.
pub proof fn law_upsert_twice(
    rows: Seq<MusicSearchProgress>,
    music_genre_id: u32,
    first: u32,
    second: u32,
    first_id: u32,
    second_id: u32,
    first_time: NaiveDateTime,
    second_time: NaiveDateTime,
)
    requires
        one_row_per_genre(rows),
    ensures
        ({
            let once = upserted(rows, music_genre_id, first, first_id, first_time);
            let twice = upserted(once, music_genre_id, second, second_id, second_time);
            &&& one_row_per_genre(twice)
            &&& twice.len() == once.len()
            &&& rows_of(twice, music_genre_id) == 1
            &&& stored(twice, music_genre_id) == Some(second)
        }),
{
    let once = upserted(rows, music_genre_id, first, first_id, first_time);
    let twice = upserted(once, music_genre_id, second, second_id, second_time);
    lemma_upserted(rows, music_genre_id, first, first_id, first_time);
    lemma_upserted(once, music_genre_id, second, second_id, second_time);
    lemma_rows_of(twice, music_genre_id);
}

/// Each advance moves a genre by exactly one page: after `n` advances of a
/// genre that had no row, its stored position is `n`.
pub proof fn law_advance_counts(
    rows: Seq<MusicSearchProgress>,
    music_genre_id: u32,
    fresh_ids: Seq<u32>,
    times: Seq<NaiveDateTime>,
)
    requires
        one_row_per_genre(rows),
        !has_genre(rows, music_genre_id),
        fresh_ids.len() == times.len(),
        fresh_ids.len() <= u32::MAX,
    ensures
        one_row_per_genre(advanced_times(rows, music_genre_id, fresh_ids, times)),
        stored(advanced_times(rows, music_genre_id, fresh_ids, times), music_genre_id) == if fresh_ids.len()
            == 0 {
            None
        } else {
            Some(fresh_ids.len() as u32)
        },
    decreases fresh_ids.len(),
{
    if fresh_ids.len() > 0 {
        let before = advanced_times(rows, music_genre_id, fresh_ids.drop_last(), times.drop_last());
        law_advance_counts(rows, music_genre_id, fresh_ids.drop_last(), times.drop_last());
        lemma_upserted(
            before,
            music_genre_id,
            (resume_at(stored(before, music_genre_id)) + 1) as u32,
            fresh_ids.last(),
            times.last(),
        );
    }
}

} // verus!
