//! The tool that discovers artists of a genre page by page: it looks the
//! genre up by its identifier and runs one discovery step for it. The
//! search key is the genre's own, never the caller's, so no genre is
//! advanced with the pages of another.

use crate::discovery::{begun, next, pending_action, Discovery, DiscoveryView, StageView};
use crate::error::{Failure, FailureView, Operation};
use crate::model::music_genre::{genre_with, lemma_genre_with, MusicGenre};
use crate::outside::{Action, ActionView, Event, EventView};
use crate::tool::reply::{discover, outcome_view, search_text};
use vstd::pervasive::unreached;
use vstd::prelude::*;

verus! {

/// Where an invocation of the discovery tool stands.
#[derive(Debug, PartialEq, Eq)]
pub enum DiscoverStage {
    /// The genres are being read.
    Genre,
    /// The discovery step of the genre is under way.
    Step(Discovery),
    /// The invocation is over.
    Finished(Result<String, Failure>),
}

/// One invocation of the discovery tool for the genre with the given
/// identifier.
#[derive(Debug, PartialEq, Eq)]
pub struct DiscoverTool {
    music_genre_id: u32,
    stage: DiscoverStage,
}

/// Mathematical value of a [`DiscoverStage`].
pub enum DiscoverStageView {
    Genre,
    Step(DiscoveryView),
    Finished(Result<Seq<char>, FailureView>),
}

/// Mathematical value of a [`DiscoverTool`].
pub struct DiscoverToolView {
    pub music_genre_id: u32,
    pub stage: DiscoverStageView,
}

impl View for DiscoverStage {
    type V = DiscoverStageView;

    open spec fn view(&self) -> DiscoverStageView {
        match self {
            DiscoverStage::Genre => DiscoverStageView::Genre,
            DiscoverStage::Step(step) => DiscoverStageView::Step(step@),
            DiscoverStage::Finished(outcome) => DiscoverStageView::Finished(outcome_view(*outcome)),
        }
    }
}

impl View for DiscoverTool {
    type V = DiscoverToolView;

    closed spec fn view(&self) -> DiscoverToolView {
        DiscoverToolView { music_genre_id: self.music_genre_id, stage: self.stage@ }
    }
}

/// What is answered for an identifier that no genre has.
pub open spec fn no_genre_text() -> Seq<char> {
    "音楽ジャンルが見つかりません"@
}

/// An invocation for the genre, before anything has happened.
pub open spec fn discover_begun(music_genre_id: u32) -> DiscoverToolView {
    DiscoverToolView { music_genre_id, stage: DiscoverStageView::Genre }
}

/// The stage that holds a discovery step: the step itself while it is
/// under way, and once it is over its answer, which lists the artists that
/// the step kept under the genre's search key, or hands on the failure.
pub open spec fn settled(step: DiscoveryView) -> DiscoverStageView {
    match step.stage {
        StageView::Finished(Ok(discovered)) => DiscoverStageView::Finished(
            Ok(search_text(step.search_key, discovered.artists)),
        ),
        StageView::Finished(Err(failure)) => DiscoverStageView::Finished(Err(failure)),
        _ => DiscoverStageView::Step(step),
    }
}

/// The invocation after `event`.
///
/// Once the genres are read, the step of the genre with the identifier
/// begins, under that genre's search key; an identifier that no genre has
/// is answered at once, and is no failure. From then on every event goes
/// to the step. An event that answers nothing leaves the invocation as it
/// is.
pub open spec fn discover_next(tool: DiscoverToolView, event: EventView) -> DiscoverToolView {
    let stage = match (tool.stage, event) {
        (DiscoverStageView::Genre, EventView::Genres(genres)) => match genre_with(
            genres,
            tool.music_genre_id,
        ) {
            Some(genre) => DiscoverStageView::Step(begun(genre.id, genre.search_key@)),
            None => DiscoverStageView::Finished(Ok(no_genre_text())),
        },
        (DiscoverStageView::Genre, EventView::Failed(cause)) => DiscoverStageView::Finished(
            Err(FailureView::StorageFailure { operation: Operation::FindMusicGenres, cause }),
        ),
        (DiscoverStageView::Step(step), event) => settled(next(step, event)),
        (stage, _) => stage,
    };
    DiscoverToolView { music_genre_id: tool.music_genre_id, stage }
}

/// What the invocation asks for while it stands as `tool`.
pub open spec fn discover_pending(tool: DiscoverToolView) -> ActionView {
    match tool.stage {
        DiscoverStageView::Genre => ActionView::FindGenres,
        DiscoverStageView::Step(step) => pending_action(step),
        DiscoverStageView::Finished(_) => ActionView::Finish,
    }
}

impl DiscoverTool {
    /// An invocation for the genre with the identifier `music_genre_id`.
    pub fn start(music_genre_id: u32) -> (tool: Self)
        ensures
            tool@ == discover_begun(music_genre_id),
    {
        DiscoverTool { music_genre_id, stage: DiscoverStage::Genre }
    }

    /// Whether the invocation is over.
    pub fn finished(&self) -> (over: bool)
        ensures
            over == (self@.stage is Finished),
    {
        match &self.stage {
            DiscoverStage::Finished(_) => true,
            _ => false,
        }
    }

    /// What the invocation asks for now.
    pub fn pending(&self) -> (action: Action)
        ensures
            action@ == discover_pending(self@),
    {
        match &self.stage {
            DiscoverStage::Genre => Action::FindGenres,
            DiscoverStage::Step(step) => step.pending(),
            DiscoverStage::Finished(_) => Action::Finish,
        }
    }

    /// Takes in what happened outside and moves the invocation on.
    pub fn step(self, event: Event) -> (tool: Self)
        ensures
            tool@ == discover_next(self@, event@),
    {
        let DiscoverTool { music_genre_id, stage } = self;
        let stage = match (stage, event) {
            (DiscoverStage::Genre, Event::Genres(genres)) => {
                match MusicGenre::find_by_id(genres.as_slice(), music_genre_id) {
                    Some(genre) => DiscoverStage::Step(Discovery::of(&genre)),
                    None => DiscoverStage::Finished(Ok("音楽ジャンルが見つかりません".to_owned())),
                }
            },
            (DiscoverStage::Genre, Event::Failed(cause)) => DiscoverStage::Finished(
                Err(Failure::StorageFailure { operation: Operation::FindMusicGenres, cause }),
            ),
            (DiscoverStage::Step(step), event) => {
                let moved = step.step(event);
                if moved.finished() {
                    let key = moved.search_key().to_owned();
                    match moved.outcome() {
                        Some(outcome) => DiscoverStage::Finished(discover(key.as_str(), outcome)),
                        None => unreached(),
                    }
                } else {
                    DiscoverStage::Step(moved)
                }
            },
            (stage, _) => stage,
        };
        DiscoverTool { music_genre_id, stage }
    }

    /// The outcome of an invocation that is over; none while it is under
    /// way.
    pub fn outcome(self) -> (outcome: Option<Result<String, Failure>>)
        ensures
            match outcome {
                Some(outcome) => self@.stage == DiscoverStageView::Finished(outcome_view(outcome)),
                None => !(self@.stage is Finished),
            },
    {
        match self.stage {
            DiscoverStage::Finished(outcome) => Some(outcome),
            _ => None,
        }
    }
}

/// A genre is discovered under its own search key: once the genres are
/// read, the invocation runs the step of the genre that has the
/// identifier asked for, and asks for a token first; where no genre has
/// the identifier it is over, says so, and asks for nothing.
pub proof fn law_discovery_keeps_to_the_genre(music_genre_id: u32, genres: Seq<MusicGenre>)
    ensures
        ({
            let tool = discover_next(discover_begun(music_genre_id), EventView::Genres(genres));
            match genre_with(genres, music_genre_id) {
                Some(genre) => {
                    &&& genres.contains(genre)
                    &&& genre.id == music_genre_id
                    &&& tool.stage == DiscoverStageView::Step(
                        begun(music_genre_id, genre.search_key@),
                    )
                    &&& discover_pending(tool) is AcquireToken
                },
                None => {
                    &&& tool.stage == DiscoverStageView::Finished(Ok(no_genre_text()))
                    &&& discover_pending(tool) is Finish
                },
            }
        }),
{
    lemma_genre_with(genres, music_genre_id);
}

} // verus!
