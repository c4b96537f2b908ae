//! The border between the library and the world. The library sends nothing
//! and stores nothing itself: an operation says what it needs done next, as
//! an [`Action`], and is told what came of it, as an [`Event`]. Every
//! action is one call to the service or one statement to the storage.

use crate::client::request::{Request, RequestView};
use crate::client::spotify::v1::search::artist::GetResponse;
use crate::model::excluded_artist::{ExcludedArtist, InsertInput, InsertInputView};
use crate::model::music_genre::MusicGenre;
use crate::model::music_search_progress::{MusicSearchProgress, UpsertInput};
use crate::text::texts;
use vstd::prelude::*;

verus! {

/// What an operation asks the outside to do next.
#[derive(Debug, PartialEq, Eq)]
pub enum Action {
    /// Exchange the refresh credential for a bearer token.
    AcquireToken,
    /// Send the request and decode a page of found artists.
    Fetch(Request),
    /// Send the request and decode one flag per identifier asked about.
    AskFollowing(Request),
    /// Send the request; its answer carries nothing to decode.
    Perform(Request),
    /// Select the rows of the exclusion list with these identifiers, by
    /// falling identifier.
    FindExcluded { ids: Vec<String> },
    /// Insert the artist into the exclusion list.
    InsertExcluded(InsertInput),
    /// Select all genres, by rising identifier.
    FindGenres,
    /// Select the progress row of the genre.
    FindProgress { music_genre_id: u32 },
    /// Store the position for the genre, whether or not it has a row.
    SaveProgress { music_genre_id: u32, input: UpsertInput },
    /// Nothing: the operation is over and its outcome can be taken.
    Finish,
}

/// What came of the action that an operation asked for.
#[derive(Debug, PartialEq, Eq)]
pub enum Event {
    /// A bearer token was acquired.
    Token(String),
    /// A page of found artists arrived.
    Page(GetResponse),
    /// The flags arrived, in the order of the identifiers asked about.
    Flags(Vec<bool>),
    /// The request was accepted.
    Sent,
    /// The exclusion list was searched; these rows matched.
    Excluded(Vec<ExcludedArtist>),
    /// The artist was inserted into the exclusion list.
    Inserted(ExcludedArtist),
    /// The artist was on the exclusion list already; nothing was changed.
    Duplicate,
    /// The genres were read.
    Genres(Vec<MusicGenre>),
    /// The genre's progress row was looked up.
    Progress(Option<MusicSearchProgress>),
    /// The position was stored; this is the genre's row now.
    Saved(MusicSearchProgress),
    /// The action failed, for the given cause.
    Failed(String),
}

/// Mathematical value of an [`Action`].
pub enum ActionView {
    AcquireToken,
    Fetch(RequestView),
    AskFollowing(RequestView),
    Perform(RequestView),
    FindExcluded { ids: Seq<Seq<char>> },
    InsertExcluded(InsertInputView),
    FindGenres,
    FindProgress { music_genre_id: u32 },
    SaveProgress { music_genre_id: u32, position: u32 },
    Finish,
}

/// Mathematical value of an [`Event`].
pub enum EventView {
    Token(Seq<char>),
    Page(GetResponse),
    Flags(Seq<bool>),
    Sent,
    Excluded(Seq<ExcludedArtist>),
    Inserted(ExcludedArtist),
    Duplicate,
    Genres(Seq<MusicGenre>),
    Progress(Option<MusicSearchProgress>),
    Saved(MusicSearchProgress),
    Failed(Seq<char>),
}

impl View for Action {
    type V = ActionView;

    open spec fn view(&self) -> ActionView {
        match self {
            Action::AcquireToken => ActionView::AcquireToken,
            Action::Fetch(request) => ActionView::Fetch(request@),
            Action::AskFollowing(request) => ActionView::AskFollowing(request@),
            Action::Perform(request) => ActionView::Perform(request@),
            Action::FindExcluded { ids } => ActionView::FindExcluded { ids: texts(ids@) },
            Action::InsertExcluded(input) => ActionView::InsertExcluded(input@),
            Action::FindGenres => ActionView::FindGenres,
            Action::FindProgress { music_genre_id } => ActionView::FindProgress {
                music_genre_id: *music_genre_id,
            },
            Action::SaveProgress { music_genre_id, input } => ActionView::SaveProgress {
                music_genre_id: *music_genre_id,
                position: input.position,
            },
            Action::Finish => ActionView::Finish,
        }
    }
}

impl View for Event {
    type V = EventView;

    open spec fn view(&self) -> EventView {
        match self {
            Event::Token(token) => EventView::Token(token@),
            Event::Page(response) => EventView::Page(*response),
            Event::Flags(flags) => EventView::Flags(flags@),
            Event::Sent => EventView::Sent,
            Event::Excluded(rows) => EventView::Excluded(rows@),
            Event::Inserted(row) => EventView::Inserted(*row),
            Event::Duplicate => EventView::Duplicate,
            Event::Genres(genres) => EventView::Genres(genres@),
            Event::Progress(found) => EventView::Progress(*found),
            Event::Saved(row) => EventView::Saved(*row),
            Event::Failed(cause) => EventView::Failed(cause@),
        }
    }
}

} // verus!
