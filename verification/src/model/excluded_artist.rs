//! The exclusion list: artists that discovery leaves out of its results.
//!
//! [`ExclusionList`] is the table as this crate pictures it: no identifier
//! occurs twice, nothing is ever changed or removed, and the rows are read
//! by falling identifier. The statements against the real storage run
//! outside the crate.

use crate::error::{Failure, FailureView};
use crate::text::{comes_before, law_texts_are_ordered, precedes, texts};
use chrono::NaiveDateTime;
use vstd::prelude::*;

verus! {

/// What is needed to put an artist on the exclusion list.
#[derive(Debug, PartialEq, Eq)]
pub struct InsertInput {
    id: String,
    name: String,
}

/// Mathematical value of an [`InsertInput`].
pub struct InsertInputView {
    pub id: Seq<char>,
    pub name: Seq<char>,
}

impl View for InsertInput {
    type V = InsertInputView;

    closed spec fn view(&self) -> InsertInputView {
        InsertInputView { id: self.id@, name: self.name@ }
    }
}

impl InsertInput {
    /// The input that excludes the artist `id`, known as `name`.
    pub fn new(id: String, name: String) -> (input: Self)
        ensures
            input@ == (InsertInputView { id: id@, name: name@ }),
    {
        Self { id, name }
    }

    /// The artist's identifier.
    pub fn id(&self) -> (id: &str)
        ensures
            id@ == self@.id,
    {
        self.id.as_str()
    }

    /// The artist's name.
    pub fn name(&self) -> (name: &str)
        ensures
            name@ == self@.name,
    {
        self.name.as_str()
    }
}

/// An artist on the exclusion list. A row is created once and never changed.
#[derive(Debug, PartialEq, Eq)]
pub struct ExcludedArtist {
    pub id: String,
    pub name: String,
    pub created_at: NaiveDateTime,
}

impl Clone for ExcludedArtist {
    fn clone(&self) -> (copy: Self)
        ensures
            copy == *self,
    {
        ExcludedArtist {
            id: self.id.clone(),
            name: self.name.clone(),
            created_at: self.created_at,
        }
    }
}

/// Whether one of `rows` has the identifier `id`.
pub open spec fn has_id(rows: Seq<ExcludedArtist>, id: Seq<char>) -> bool {
    exists|i: int| 0 <= i < rows.len() && #[trigger] rows[i].id@ == id
}

/// No two of `rows` share an identifier.
pub open spec fn distinct_ids(rows: Seq<ExcludedArtist>) -> bool {
    forall|i: int, j: int|
        0 <= i < j < rows.len() ==> #[trigger] rows[i].id@ != #[trigger] rows[j].id@
}

/// The rows stand by falling identifier: each identifier comes before the
/// identifiers of all rows in front of it, in the order of texts.
pub open spec fn descending(rows: Seq<ExcludedArtist>) -> bool {
    forall|i: int, j: int|
        0 <= i < j < rows.len() ==> precedes((#[trigger] rows[j]).id@, (#[trigger] rows[i]).id@)
}

/// Where a row with the identifier `id` belongs among `rows` that stand by
/// falling identifier: behind the rows at the front whose identifiers come
/// after `id`.
pub open spec fn slot(rows: Seq<ExcludedArtist>, id: Seq<char>) -> int
    decreases rows.len(),
{
    if rows.len() == 0 || !precedes(id, rows[0].id@) {
        0
    } else {
        1 + slot(rows.drop_first(), id)
    }
}

/// The exclusion table: rows with pairwise distinct identifiers, held by
/// falling identifier.
pub struct ExclusionList {
    rows: Vec<ExcludedArtist>,
}

impl View for ExclusionList {
    type V = Seq<ExcludedArtist>;

    closed spec fn view(&self) -> Seq<ExcludedArtist> {
        self.rows@
    }
}

/// Whether an artist is on the exclusion list.
#[derive(Debug, PartialEq, Eq)]
pub struct Membership {
    pub id: String,
    pub excluded: bool,
}

impl ExclusionList {
    #[verifier::type_invariant]
    spec fn well_formed(&self) -> bool {
        descending(self.rows@)
    }

    /// The empty table.
    pub fn new() -> (list: Self)
        ensures
            list@ == Seq::<ExcludedArtist>::empty(),
    {
        ExclusionList { rows: Vec::new() }
    }

    /// Number of rows.
    pub fn len(&self) -> (len: usize)
        ensures
            len == self@.len(),
            descending(self@),
            distinct_ids(self@),
    {
        proof {
            use_type_invariant(self);
            lemma_descending_is_distinct(self.rows@);
        }
        self.rows.len()
    }
}

/// The place of a new row with the identifier `id` among `rows`.
fn slot_of(rows: &[ExcludedArtist], id: &String) -> (at: usize)
    ensures
        at == slot(rows@, id@),
        at <= rows@.len(),
        forall|i: int| 0 <= i < at ==> precedes(id@, (#[trigger] rows@[i]).id@),
        at < rows@.len() ==> !precedes(id@, rows@[at as int].id@),
{
    let mut at: usize = 0;
    assert(rows@.skip(0) =~= rows@);
    while at < rows.len()
        invariant
            at <= rows.len(),
            forall|i: int| 0 <= i < at ==> precedes(id@, (#[trigger] rows@[i]).id@),
            slot(rows@, id@) == at + slot(rows@.skip(at as int), id@),
        decreases rows.len() - at,
    {
        if !comes_before(id.as_str(), rows[at].id.as_str()) {
            return at;
        }
        assert(rows@.skip(at as int).drop_first() =~= rows@.skip(at + 1));
        at += 1;
    }
    at
}

/// Whether `id` is one of `ids`.
pub fn listed(ids: &[String], id: &String) -> (found: bool)
    ensures
        found == texts(ids@).contains(id@),
{
    let mut i: usize = 0;
    while i < ids.len()
        invariant
            i <= ids.len(),
            forall|k: int| 0 <= k < i ==> ids@[k]@ != id@,
        decreases ids.len() - i,
    {
        if ids[i] == *id {
            assert(texts(ids@)[i as int] == id@);
            return true;
        }
        i += 1;
    }
    assert forall|k: int| 0 <= k < texts(ids@).len() implies texts(ids@)[k] != id@ by {
        assert(texts(ids@)[k] == ids@[k]@);
    }
    false
}

/// Whether one of `rows` has the identifier `id`.
pub fn excluded(rows: &[ExcludedArtist], id: &String) -> (found: bool)
    ensures
        found == has_id(rows@, id@),
{
    let mut i: usize = 0;
    while i < rows.len()
        invariant
            i <= rows.len(),
            forall|k: int| 0 <= k < i ==> rows@[k].id@ != id@,
        decreases rows.len() - i,
    {
        if rows[i].id == *id {
            return true;
        }
        i += 1;
    }
    false
}

impl ExcludedArtist {
    /// The rows of the list whose identifier is one of `ids`, by falling
    /// identifier: every row found comes before the rows found behind it,
    /// in the order of texts. For no identifiers the answer is empty.
    pub fn find_by_ids(list: &ExclusionList, ids: &[String]) -> (found: Vec<Self>)
        ensures
            descending(list@),
            found@ == list@.filter(|row: ExcludedArtist| texts(ids@).contains(row.id@)),
            descending(found@),
            ids@.len() == 0 ==> found@.len() == 0,
    {
        proof {
            use_type_invariant(list);
        }
        let ghost wanted = |row: ExcludedArtist| texts(ids@).contains(row.id@);
        let mut found: Vec<Self> = Vec::new();
        if ids.is_empty() {
            proof {
                lemma_filter_none(list@, wanted);
            }
            return found;
        }
        let mut i: usize = 0;
        proof {
            reveal(Seq::filter);
            assert(list@.take(0) =~= Seq::<ExcludedArtist>::empty());
        }
        while i < list.rows.len()
            invariant
                i <= list.rows.len(),
                list@ == list.rows@,
                descending(list@),
                wanted == |row: ExcludedArtist| texts(ids@).contains(row.id@),
                found@ == list@.take(i as int).filter(wanted),
                descending(found@),
                forall|t: int, m: int|
                    0 <= t < found@.len() && i <= m < list@.len() ==> precedes(
                        (#[trigger] list@[m]).id@,
                        (#[trigger] found@[t]).id@,
                    ),
            decreases list.rows.len() - i,
        {
            proof {
                reveal(Seq::filter);
                assert(list@.take(i + 1).drop_last() =~= list@.take(i as int));
            }
            if listed(ids, &list.rows[i].id) {
                found.push(list.rows[i].clone());
            }
            i += 1;
        }
        assert(list@.take(i as int) =~= list@);
        found
    }

    /// Puts the artist of `input` on the list, stamped with `now`. An
    /// identifier that is on the list already is refused and the list stays
    /// as it was; any other input becomes a row at its place among the
    /// falling identifiers.
    pub fn insert(list: &mut ExclusionList, input: &InsertInput, now: NaiveDateTime) -> (inserted:
        Result<Self, Failure>)
        ensures
            descending(final(list)@),
            distinct_ids(final(list)@),
            match inserted {
                Ok(row) => {
                    &&& !has_id(old(list)@, input@.id)
                    &&& row.id@ == input@.id
                    &&& row.name@ == input@.name
                    &&& row.created_at == now
                    &&& 0 <= slot(old(list)@, input@.id) <= old(list)@.len()
                    &&& final(list)@ == old(list)@.insert(slot(old(list)@, input@.id), row)
                    &&& final(list)@.len() == old(list)@.len() + 1
                    &&& has_id(final(list)@, input@.id)
                },
                Err(failure) => {
                    &&& has_id(old(list)@, input@.id)
                    &&& failure@ == (FailureView::DuplicateExclusion { id: input@.id })
                    &&& final(list)@ == old(list)@
                },
            },
    {
        proof {
            use_type_invariant(&*list);
            lemma_descending_is_distinct(list.rows@);
        }
        if excluded(list.rows.as_slice(), &input.id) {
            return Err(Failure::DuplicateExclusion { id: input.id.clone() });
        }
        let at = slot_of(list.rows.as_slice(), &input.id);
        let row = ExcludedArtist { id: input.id.clone(), name: input.name.clone(), created_at: now };
        let copy = row.clone();
        let mut taken = ExclusionList::new();
        core::mem::swap(list, &mut taken);
        let mut rows = taken.rows;
        let ghost before = rows@;
        rows.insert(at, row);
        proof {
            lemma_insert_keeps_order(before, at as int, row);
            assert(rows@[at as int].id@ == input@.id);
            lemma_descending_is_distinct(rows@);
        }
        *list = ExclusionList { rows };
        Ok(copy)
    }

    /// For each of `ids`, in their order, whether it is the identifier of
    /// one of `rows`. The flag of an identifier depends on nothing but the
    /// identifiers in `rows`.
    pub fn contains_any(rows: &[ExcludedArtist], ids: &[String]) -> (members: Vec<Membership>)
        ensures
            members@.len() == ids@.len(),
            forall|i: int|
                0 <= i < ids@.len() ==> {
                    &&& (#[trigger] members@[i]).id@ == ids@[i]@
                    &&& members@[i].excluded == has_id(rows@, ids@[i]@)
                },
    {
        let mut members: Vec<Membership> = Vec::new();
        let mut i: usize = 0;
        while i < ids.len()
            invariant
                i <= ids.len(),
                members@.len() == i,
                forall|k: int|
                    0 <= k < i ==> {
                        &&& (#[trigger] members@[k]).id@ == ids@[k]@
                        &&& members@[k].excluded == has_id(rows@, ids@[k]@)
                    },
            decreases ids.len() - i,
        {
            let flag = excluded(rows, &ids[i]);
            members.push(Membership { id: ids[i].clone(), excluded: flag });
            i += 1;
        }
        members
    }
}

/// Rows that stand by falling identifier hold no identifier twice.
pub proof fn lemma_descending_is_distinct(rows: Seq<ExcludedArtist>)
    requires
        descending(rows),
    ensures
        distinct_ids(rows),
{
    assert forall|i: int, j: int| 0 <= i < j < rows.len() implies #[trigger] rows[i].id@
        != #[trigger] rows[j].id@ by {
        assert(precedes(rows[j].id@, rows[i].id@));
        law_texts_are_ordered(rows[i].id@, rows[i].id@, rows[i].id@);
    }
}

/// A row put behind the rows whose identifiers come after its own, and in
/// front of a row whose identifier does not, keeps the rows by falling
/// identifier, as long as its identifier is new.
proof fn lemma_insert_keeps_order(rows: Seq<ExcludedArtist>, at: int, row: ExcludedArtist)
    requires
        descending(rows),
        !has_id(rows, row.id@),
        0 <= at <= rows.len(),
        forall|i: int| 0 <= i < at ==> precedes(row.id@, (#[trigger] rows[i]).id@),
        at < rows.len() ==> !precedes(row.id@, rows[at].id@),
    ensures
        descending(rows.insert(at, row)),
{
    let after = rows.insert(at, row);
    assert forall|i: int| at <= i < rows.len() implies precedes((#[trigger] rows[i]).id@, row.id@) by {
        assert(rows[at].id@ != row.id@);
        law_texts_are_ordered(rows[at].id@, row.id@, row.id@);
        if at < i {
            assert(precedes(rows[i].id@, rows[at].id@));
            law_texts_are_ordered(rows[i].id@, rows[at].id@, row.id@);
        }
    }
    assert forall|i: int, j: int| 0 <= i < j < after.len() implies precedes(
        (#[trigger] after[j]).id@,
        (#[trigger] after[i]).id@,
    ) by {
        if j < at {
            assert(after[i] == rows[i] && after[j] == rows[j]);
        } else if j == at {
            assert(after[i] == rows[i] && after[j] == row);
        } else if i < at {
            assert(after[i] == rows[i] && after[j] == rows[j - 1]);
        } else if i == at {
            assert(after[i] == row && after[j] == rows[j - 1]);
        } else {
            assert(after[i] == rows[i - 1] && after[j] == rows[j - 1]);
        }
    }
}

/// A filter whose predicate holds of no row keeps nothing.
proof fn lemma_filter_none(rows: Seq<ExcludedArtist>, wanted: spec_fn(ExcludedArtist) -> bool)
    requires
        forall|i: int| 0 <= i < rows.len() ==> !wanted(#[trigger] rows[i]),
    ensures
        rows.filter(wanted) == Seq::<ExcludedArtist>::empty(),
    decreases rows.len(),
{
    reveal(Seq::filter);
    if rows.len() > 0 {
        lemma_filter_none(rows.drop_last(), wanted);
    }
}

/// Whether an artist is excluded depends on which rows the list holds, not
/// on their order: two lists with the same rows exclude the same
/// identifiers.
pub proof fn law_membership_ignores_order(
    first: Seq<ExcludedArtist>,
    second: Seq<ExcludedArtist>,
    id: Seq<char>,
)
    requires
        forall|row: ExcludedArtist| first.contains(row) <==> second.contains(row),
    ensures
        has_id(first, id) == has_id(second, id),
{
    if has_id(first, id) {
        let i = choose|i: int| 0 <= i < first.len() && #[trigger] first[i].id@ == id;
        assert(first.contains(first[i]));
        let j = choose|j: int| 0 <= j < second.len() && second[j] == first[i];
        assert(second[j].id@ == id);
    }
    if has_id(second, id) {
        let j = choose|j: int| 0 <= j < second.len() && #[trigger] second[j].id@ == id;
        assert(second.contains(second[j]));
        let i = choose|i: int| 0 <= i < first.len() && first[i] == second[j];
        assert(first[i].id@ == id);
    }
}

} // verus!
