//! The tools that work on the storage: the exclusion list, the genres and
//! the search progress.

use crate::error::{Failure, FailureView, Operation};
use crate::model::excluded_artist::{ExcludedArtist, InsertInput, InsertInputView};
use crate::model::music_search_progress::{
    advanced, has_genre, next_input, one_row_per_genre, out_of_range, place, position_of,
    resume_at, stored, upserted, MusicSearchProgress, UpsertInput,
};
use crate::outside::{Action, ActionView, Event, EventView};
use crate::text::{copy_strings, texts};
use crate::tool::reply::{
    advanced_output, advanced_text, excluded_output, excluded_text, genres_output, genres_text,
    outcome_view, progress_output, progress_text, started_output, started_text,
};
use chrono::NaiveDateTime;
use vstd::prelude::*;

verus! {

/// A tool that works on the storage: what the caller asked for.
#[derive(Debug, PartialEq, Eq)]
pub enum StorageCall {
    /// Show which of the artists are excluded.
    GetExcludedArtistsByIds { ids: Vec<String> },
    /// Put an artist on the exclusion list.
    InsertExcludedArtist { input: InsertInput },
    /// List the genres.
    GetMusicGenres,
    /// Show how far the search of a genre has come.
    GetMusicSearchProgress { music_genre_id: u32 },
    /// Start the search of a genre at position zero.
    InsertMusicSearchProgress { music_genre_id: u32 },
    /// Advance the search of a genre by one page.
    UpdateMusicSearchProgress { music_genre_id: u32 },
}

/// Where an invocation of a storage tool stands.
#[derive(Debug, PartialEq, Eq)]
pub enum StorageStage {
    /// The tool's first statement is under way.
    Asked,
    /// The advanced position of the genre is being stored.
    Saving { music_genre_id: u32, input: UpsertInput },
    /// The invocation is over.
    Finished(Result<String, Failure>),
}

/// One invocation of a tool that works on the storage. Every tool makes
/// one statement, but for the advance of a genre, which reads the stored
/// position and then stores the next.
#[derive(Debug, PartialEq, Eq)]
pub struct StorageTool {
    call: StorageCall,
    stage: StorageStage,
}

/// Mathematical value of a [`StorageCall`].
pub enum StorageCallView {
    GetExcludedArtistsByIds { ids: Seq<Seq<char>> },
    InsertExcludedArtist { input: InsertInputView },
    GetMusicGenres,
    GetMusicSearchProgress { music_genre_id: u32 },
    InsertMusicSearchProgress { music_genre_id: u32 },
    UpdateMusicSearchProgress { music_genre_id: u32 },
}

/// Mathematical value of a [`StorageStage`].
pub enum StorageStageView {
    Asked,
    Saving { music_genre_id: u32, position: u32 },
    Finished(Result<Seq<char>, FailureView>),
}

/// Mathematical value of a [`StorageTool`].
pub struct StorageToolView {
    pub call: StorageCallView,
    pub stage: StorageStageView,
}

impl View for StorageCall {
    type V = StorageCallView;

    open spec fn view(&self) -> StorageCallView {
        match self {
            StorageCall::GetExcludedArtistsByIds { ids } => StorageCallView::GetExcludedArtistsByIds {
                ids: texts(ids@),
            },
            StorageCall::InsertExcludedArtist { input } => StorageCallView::InsertExcludedArtist {
                input: input@,
            },
            StorageCall::GetMusicGenres => StorageCallView::GetMusicGenres,
            StorageCall::GetMusicSearchProgress { music_genre_id } => {
                StorageCallView::GetMusicSearchProgress { music_genre_id: *music_genre_id }
            },
            StorageCall::InsertMusicSearchProgress { music_genre_id } => {
                StorageCallView::InsertMusicSearchProgress { music_genre_id: *music_genre_id }
            },
            StorageCall::UpdateMusicSearchProgress { music_genre_id } => {
                StorageCallView::UpdateMusicSearchProgress { music_genre_id: *music_genre_id }
            },
        }
    }
}

impl View for StorageStage {
    type V = StorageStageView;

    open spec fn view(&self) -> StorageStageView {
        match self {
            StorageStage::Asked => StorageStageView::Asked,
            StorageStage::Saving { music_genre_id, input } => StorageStageView::Saving {
                music_genre_id: *music_genre_id,
                position: input.position,
            },
            StorageStage::Finished(outcome) => StorageStageView::Finished(outcome_view(*outcome)),
        }
    }
}

impl View for StorageTool {
    type V = StorageToolView;

    closed spec fn view(&self) -> StorageToolView {
        StorageToolView { call: self.call@, stage: self.stage@ }
    }
}

/// An invocation of a storage tool before anything has happened. A lookup
/// of no artists is over at once, with nothing found and the storage not
/// asked; every other invocation begins with its first statement.
pub open spec fn storage_begun(call: StorageCallView) -> StorageToolView {
    StorageToolView {
        call,
        stage: match call {
            StorageCallView::GetExcludedArtistsByIds { ids } if ids.len() == 0 => {
                StorageStageView::Finished(Ok(excluded_text(Seq::empty())))
            },
            _ => StorageStageView::Asked,
        },
    }
}

/// The first statement of a storage tool.
pub open spec fn statement_of(call: StorageCallView) -> ActionView {
    match call {
        StorageCallView::GetExcludedArtistsByIds { ids } => ActionView::FindExcluded { ids },
        StorageCallView::InsertExcludedArtist { input } => ActionView::InsertExcluded(input),
        StorageCallView::GetMusicGenres => ActionView::FindGenres,
        StorageCallView::GetMusicSearchProgress { music_genre_id } => ActionView::FindProgress {
            music_genre_id,
        },
        StorageCallView::InsertMusicSearchProgress { music_genre_id } => ActionView::SaveProgress {
            music_genre_id,
            position: 0,
        },
        StorageCallView::UpdateMusicSearchProgress { music_genre_id } => ActionView::FindProgress {
            music_genre_id,
        },
    }
}

/// The storage operation that a tool's first statement performs.
pub open spec fn operation_of(call: StorageCallView) -> Operation {
    match call {
        StorageCallView::GetExcludedArtistsByIds { .. } => Operation::FindExcludedArtists,
        StorageCallView::InsertExcludedArtist { .. } => Operation::InsertExcludedArtist,
        StorageCallView::GetMusicGenres => Operation::FindMusicGenres,
        StorageCallView::GetMusicSearchProgress { .. } => Operation::FindProgress,
        StorageCallView::InsertMusicSearchProgress { .. } => Operation::InsertProgress,
        StorageCallView::UpdateMusicSearchProgress { .. } => Operation::FindProgress,
    }
}

/// What an invocation of a storage tool asks for while it stands as `tool`.
pub open spec fn storage_pending(tool: StorageToolView) -> ActionView {
    match tool.stage {
        StorageStageView::Asked => statement_of(tool.call),
        StorageStageView::Saving { music_genre_id, position } => ActionView::SaveProgress {
            music_genre_id,
            position,
        },
        StorageStageView::Finished(_) => ActionView::Finish,
    }
}

/// The stage of a storage tool after its first statement has given
/// `event`; none where the event is no answer to that statement.
///
/// A genre to advance moves on to storing the position after the one
/// found, a genre without a row counting as found at the start; only the
/// last position that fits ends the invocation instead. A duplicate is the
/// answer to an insertion, and a failure, not a success.
pub open spec fn storage_answer(call: StorageCallView, event: EventView) -> Option<StorageStageView> {
    match (call, event) {
        (_, EventView::Failed(cause)) => Some(
            StorageStageView::Finished(
                Err(FailureView::StorageFailure { operation: operation_of(call), cause }),
            ),
        ),
        (StorageCallView::GetExcludedArtistsByIds { .. }, EventView::Excluded(rows)) => Some(
            StorageStageView::Finished(Ok(excluded_text(rows))),
        ),
        (StorageCallView::InsertExcludedArtist { .. }, EventView::Inserted(_)) => Some(
            StorageStageView::Finished(Ok("アーティストを除外リストに登録しました"@)),
        ),
        (StorageCallView::InsertExcludedArtist { input }, EventView::Duplicate) => Some(
            StorageStageView::Finished(Err(FailureView::DuplicateExclusion { id: input.id })),
        ),
        (StorageCallView::GetMusicGenres, EventView::Genres(genres)) => Some(
            StorageStageView::Finished(Ok(genres_text(genres))),
        ),
        (StorageCallView::GetMusicSearchProgress { .. }, EventView::Progress(found)) => Some(
            StorageStageView::Finished(Ok(progress_text(found))),
        ),
        (StorageCallView::InsertMusicSearchProgress { music_genre_id }, EventView::Saved(_)) => {
            Some(StorageStageView::Finished(Ok(started_text(music_genre_id))))
        },
        (
            StorageCallView::UpdateMusicSearchProgress { music_genre_id },
            EventView::Progress(found),
        ) => Some(
            if position_of(found) < u32::MAX {
                StorageStageView::Saving {
                    music_genre_id,
                    position: (position_of(found) + 1) as u32,
                }
            } else {
                StorageStageView::Finished(
                    Err(
                        FailureView::StorageFailure {
                            operation: Operation::UpdateProgress,
                            cause: out_of_range(),
                        },
                    ),
                )
            },
        ),
        _ => None,
    }
}

/// The invocation of a storage tool after `event`. An event that answers
/// nothing leaves the invocation as it is.
pub open spec fn storage_next(tool: StorageToolView, event: EventView) -> StorageToolView {
    let stage = match (tool.stage, event) {
        (StorageStageView::Asked, event) => match storage_answer(tool.call, event) {
            Some(stage) => stage,
            None => tool.stage,
        },
        (StorageStageView::Saving { music_genre_id, .. }, EventView::Saved(_)) => {
            StorageStageView::Finished(Ok(advanced_text(music_genre_id)))
        },
        (StorageStageView::Saving { .. }, EventView::Failed(cause)) => StorageStageView::Finished(
            Err(FailureView::StorageFailure { operation: Operation::UpdateProgress, cause }),
        ),
        (stage, _) => stage,
    };
    StorageToolView { call: tool.call, stage }
}

impl StorageTool {
    /// An invocation of the tool, before anything has happened.
    pub fn start(call: StorageCall) -> (tool: Self)
        ensures
            tool@ == storage_begun(call@),
    {
        let stage = match &call {
            StorageCall::GetExcludedArtistsByIds { ids } => {
                if ids.len() == 0 {
                    let none: Vec<ExcludedArtist> = Vec::new();
                    assert(none@ =~= Seq::<ExcludedArtist>::empty());
                    assert(texts(ids@).len() == 0);
                    StorageStage::Finished(Ok(excluded_output(none.as_slice())))
                } else {
                    assert(texts(ids@).len() != 0);
                    StorageStage::Asked
                }
            },
            _ => StorageStage::Asked,
        };
        StorageTool { call, stage }
    }

    /// An invocation that shows which of `ids` are excluded.
    pub fn get_excluded_artists_by_ids(ids: Vec<String>) -> (tool: Self)
        ensures
            tool@ == storage_begun(StorageCallView::GetExcludedArtistsByIds { ids: texts(ids@) }),
    {
        Self::start(StorageCall::GetExcludedArtistsByIds { ids })
    }

    /// An invocation that puts the artist on the exclusion list.
    pub fn insert_excluded_artist(id: String, name: String) -> (tool: Self)
        ensures
            tool@ == storage_begun(
                StorageCallView::InsertExcludedArtist {
                    input: InsertInputView { id: id@, name: name@ },
                },
            ),
    {
        Self::start(StorageCall::InsertExcludedArtist { input: InsertInput::new(id, name) })
    }

    /// An invocation that lists the genres.
    pub fn get_music_genres() -> (tool: Self)
        ensures
            tool@ == storage_begun(StorageCallView::GetMusicGenres),
    {
        Self::start(StorageCall::GetMusicGenres)
    }

    /// An invocation that shows the progress of the genre.
    pub fn get_music_search_progress(music_genre_id: u32) -> (tool: Self)
        ensures
            tool@ == storage_begun(StorageCallView::GetMusicSearchProgress { music_genre_id }),
    {
        Self::start(StorageCall::GetMusicSearchProgress { music_genre_id })
    }

    /// An invocation that starts the progress of the genre at zero.
    pub fn insert_music_search_progress(music_genre_id: u32) -> (tool: Self)
        ensures
            tool@ == storage_begun(StorageCallView::InsertMusicSearchProgress { music_genre_id }),
    {
        Self::start(StorageCall::InsertMusicSearchProgress { music_genre_id })
    }

    /// An invocation that advances the progress of the genre by one page.
    pub fn update_music_search_progress(music_genre_id: u32) -> (tool: Self)
        ensures
            tool@ == storage_begun(StorageCallView::UpdateMusicSearchProgress { music_genre_id }),
    {
        Self::start(StorageCall::UpdateMusicSearchProgress { music_genre_id })
    }

    /// Whether the invocation is over.
    pub fn finished(&self) -> (over: bool)
        ensures
            over == (self@.stage is Finished),
    {
        match &self.stage {
            StorageStage::Finished(_) => true,
            _ => false,
        }
    }

    /// What the invocation asks for now.
    pub fn pending(&self) -> (action: Action)
        ensures
            action@ == storage_pending(self@),
    {
        match &self.stage {
            StorageStage::Asked => match &self.call {
                StorageCall::GetExcludedArtistsByIds { ids } => Action::FindExcluded {
                    ids: copy_strings(ids.as_slice()),
                },
                StorageCall::InsertExcludedArtist { input } => Action::InsertExcluded(
                    InsertInput::new(input.id().to_owned(), input.name().to_owned()),
                ),
                StorageCall::GetMusicGenres => Action::FindGenres,
                StorageCall::GetMusicSearchProgress { music_genre_id } => Action::FindProgress {
                    music_genre_id: *music_genre_id,
                },
                StorageCall::InsertMusicSearchProgress { music_genre_id } => Action::SaveProgress {
                    music_genre_id: *music_genre_id,
                    input: UpsertInput::start(),
                },
                StorageCall::UpdateMusicSearchProgress { music_genre_id } => Action::FindProgress {
                    music_genre_id: *music_genre_id,
                },
            },
            StorageStage::Saving { music_genre_id, input } => Action::SaveProgress {
                music_genre_id: *music_genre_id,
                input: *input,
            },
            StorageStage::Finished(_) => Action::Finish,
        }
    }

    /// Takes in what happened outside and moves the invocation on.
    pub fn step(self, event: Event) -> (tool: Self)
        ensures
            tool@ == storage_next(self@, event@),
    {
        let StorageTool { call, stage } = self;
        let stage = match (stage, event) {
            (StorageStage::Asked, Event::Failed(cause)) => {
                let operation = match &call {
                    StorageCall::GetExcludedArtistsByIds { .. } => Operation::FindExcludedArtists,
                    StorageCall::InsertExcludedArtist { .. } => Operation::InsertExcludedArtist,
                    StorageCall::GetMusicGenres => Operation::FindMusicGenres,
                    StorageCall::GetMusicSearchProgress { .. } => Operation::FindProgress,
                    StorageCall::InsertMusicSearchProgress { .. } => Operation::InsertProgress,
                    StorageCall::UpdateMusicSearchProgress { .. } => Operation::FindProgress,
                };
                StorageStage::Finished(Err(Failure::StorageFailure { operation, cause }))
            },
            (StorageStage::Asked, Event::Excluded(rows)) => match &call {
                StorageCall::GetExcludedArtistsByIds { .. } => StorageStage::Finished(
                    Ok(excluded_output(rows.as_slice())),
                ),
                _ => StorageStage::Asked,
            },
            (StorageStage::Asked, Event::Inserted(_)) => match &call {
                StorageCall::InsertExcludedArtist { .. } => StorageStage::Finished(
                    Ok("アーティストを除外リストに登録しました".to_owned()),
                ),
                _ => StorageStage::Asked,
            },
            (StorageStage::Asked, Event::Duplicate) => match &call {
                StorageCall::InsertExcludedArtist { input } => StorageStage::Finished(
                    Err(Failure::DuplicateExclusion { id: input.id().to_owned() }),
                ),
                _ => StorageStage::Asked,
            },
            (StorageStage::Asked, Event::Genres(genres)) => match &call {
                StorageCall::GetMusicGenres => StorageStage::Finished(
                    Ok(genres_output(genres.as_slice())),
                ),
                _ => StorageStage::Asked,
            },
            (StorageStage::Asked, Event::Progress(found)) => match &call {
                StorageCall::GetMusicSearchProgress { .. } => StorageStage::Finished(
                    Ok(progress_output(found)),
                ),
                StorageCall::UpdateMusicSearchProgress { music_genre_id } => match next_input(found) {
                    Ok(input) => StorageStage::Saving { music_genre_id: *music_genre_id, input },
                    Err(failure) => StorageStage::Finished(Err(failure)),
                },
                _ => StorageStage::Asked,
            },
            (StorageStage::Asked, Event::Saved(_)) => match &call {
                StorageCall::InsertMusicSearchProgress { music_genre_id } => StorageStage::Finished(
                    Ok(started_output(*music_genre_id)),
                ),
                _ => StorageStage::Asked,
            },
            (StorageStage::Saving { music_genre_id, .. }, Event::Saved(_)) => StorageStage::Finished(
                Ok(advanced_output(music_genre_id)),
            ),
            (StorageStage::Saving { .. }, Event::Failed(cause)) => StorageStage::Finished(
                Err(Failure::StorageFailure { operation: Operation::UpdateProgress, cause }),
            ),
            (stage, _) => stage,
        };
        StorageTool { call, stage }
    }

    /// The outcome of an invocation that is over; none while it is under
    /// way.
    pub fn outcome(self) -> (outcome: Option<Result<String, Failure>>)
        ensures
            match outcome {
                Some(outcome) => self@.stage == StorageStageView::Finished(outcome_view(outcome)),
                None => !(self@.stage is Finished),
            },
    {
        match self.stage {
            StorageStage::Finished(outcome) => Some(outcome),
            _ => None,
        }
    }
}

/// The row of the genre among `rows`, if it has one.
pub open spec fn row_of(rows: Seq<MusicSearchProgress>, music_genre_id: u32) -> Option<
    MusicSearchProgress,
> {
    if has_genre(rows, music_genre_id) {
        Some(rows[place(rows, music_genre_id)])
    } else {
        None
    }
}

/// A lookup of no artists is settled without the storage: the invocation
/// is over from the start with nothing found, and asks for nothing. A
/// lookup of some artists asks the storage about exactly those.
pub proof fn law_empty_lookup_asks_nothing(ids: Seq<Seq<char>>)
    ensures
        ({
            let tool = storage_begun(StorageCallView::GetExcludedArtistsByIds { ids });
            if ids.len() == 0 {
                &&& tool.stage == StorageStageView::Finished(Ok(excluded_text(Seq::empty())))
                &&& storage_pending(tool) is Finish
            } else {
                storage_pending(tool) == (ActionView::FindExcluded { ids })
            }
        }),
{
}

/// The advance of a genre moves it by exactly one page: against a table
/// that holds `rows`, the tool reads the genre's row and then stores the
/// position after the stored one, which leaves the table as one advance
/// of the genre does. A genre without a row counts as stored at the start.
pub proof fn law_update_advances_by_one(
    rows: Seq<MusicSearchProgress>,
    music_genre_id: u32,
    fresh_id: u32,
    now: NaiveDateTime,
)
    requires
        one_row_per_genre(rows),
        resume_at(stored(rows, music_genre_id)) < u32::MAX,
    ensures
        ({
            let asked = storage_begun(StorageCallView::UpdateMusicSearchProgress { music_genre_id });
            let saving = storage_next(
                asked,
                EventView::Progress(row_of(rows, music_genre_id)),
            );
            let position = (resume_at(stored(rows, music_genre_id)) + 1) as u32;
            &&& storage_pending(asked) == (ActionView::FindProgress { music_genre_id })
            &&& storage_pending(saving) == (ActionView::SaveProgress { music_genre_id, position })
            &&& upserted(rows, music_genre_id, position, fresh_id, now) == advanced(
                rows,
                music_genre_id,
                fresh_id,
                now,
            )
        }),
{
}

} // verus!
