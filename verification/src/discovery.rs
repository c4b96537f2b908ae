//! One discovery step for a genre: acquire a token, read the genre's stored
//! position, fetch the page at that position, leave out the excluded
//! artists, and advance the position by one.

use crate::client::spotify::v1::search::artist::{
    get, last_page, reachable, search_request, Artist, GetResponse, SearchPage, SearchPageView,
};
use crate::constant::spotify::PAGE_SIZE;
use crate::error::{Endpoint, Failure, FailureView, Operation};
use crate::model::excluded_artist::{excluded, has_id, ExcludedArtist};
use crate::model::music_genre::MusicGenre;
use crate::model::music_search_progress::{position_of, MusicSearchProgress, UpsertInput};
use crate::outside::{Action, ActionView, Event, EventView};
use vstd::prelude::*;

verus! {

/// The artists of `items` that are not on the exclusion list `rows`, in
/// their order.
pub open spec fn kept(items: Seq<Artist>, rows: Seq<ExcludedArtist>) -> Seq<Artist> {
    items.filter(|artist: Artist| !has_id(rows, artist.id@))
}

/// Leaves out of `items` every artist whose identifier is on the exclusion
/// list `rows`.
pub fn keep_allowed(items: Vec<Artist>, rows: &[ExcludedArtist]) -> (allowed: Vec<Artist>)
    ensures
        allowed@ == kept(items@, rows@),
{
    let ghost wanted = |artist: Artist| !has_id(rows@, artist.id@);
    let ghost all = items@;
    let mut allowed: Vec<Artist> = Vec::new();
    proof {
        reveal(Seq::filter);
        assert(all.take(0) =~= Seq::<Artist>::empty());
    }
    for artist in walk: items
        invariant
            wanted == |artist: Artist| !has_id(rows@, artist.id@),
            walk.seq() == all,
            allowed@ == all.take(walk.index() as int).filter(wanted),
    {
        proof {
            reveal(Seq::filter);
            assert(all.take(walk.index() + 1).drop_last() =~= all.take(walk.index() as int));
        }
        if !excluded(rows, &artist.id) {
            allowed.push(artist);
        }
    }
    assert(all.take(all.len() as int) =~= all);
    allowed
}

/// How far the search of a genre has come. Only the position is stored:
/// whether a genre is exhausted is worked out anew from its position and
/// the total that the service reports.
#[derive(Clone, Copy, Debug, PartialEq, Eq, Structural)]
pub enum GenreState {
    /// The genre was never searched.
    Unstarted,
    /// That many pages have been consumed, and more remain.
    InProgress(u32),
    /// The consumed pages reach the total.
    Exhausted,
}

/// The state of a genre whose row is `found`, against `total` artists.
pub open spec fn state_of(found: Option<MusicSearchProgress>, total: u32) -> GenreState {
    match found {
        None => GenreState::Unstarted,
        Some(row) => if row.position * PAGE_SIZE >= total {
            GenreState::Exhausted
        } else {
            GenreState::InProgress(row.position)
        },
    }
}

/// The state of a genre, from its row and the total of its last page.
pub fn genre_state(found: Option<MusicSearchProgress>, total: u32) -> (state: GenreState)
    ensures
        state == state_of(found, total),
{
    match found {
        None => GenreState::Unstarted,
        Some(row) => {
            assert(row.position * PAGE_SIZE <= u64::MAX) by {
                assert(PAGE_SIZE == 20);
            }
            if row.position as u64 * PAGE_SIZE as u64 >= total as u64 {
                GenreState::Exhausted
            } else {
                GenreState::InProgress(row.position)
            }
        },
    }
}

/// What a completed step hands to the caller.
#[derive(Debug, PartialEq, Eq)]
pub struct Discovered {
    /// The artists of the fetched page that are not excluded.
    pub artists: Vec<Artist>,
    /// How many artists the genre has in all.
    pub total: u32,
    /// Whether the fetched page was the genre's last.
    pub exhausted: bool,
    /// The genre's row after the step.
    pub progress: MusicSearchProgress,
}

/// Where a step stands.
#[derive(Debug, PartialEq, Eq)]
pub enum Stage {
    /// A token has been asked for.
    Token,
    /// The genre's row is being looked up.
    Progress { token: String },
    /// The page that follows `position` consumed pages is being fetched.
    Page { token: String, position: u32, page: SearchPage },
    /// The exclusion list is being asked about the fetched artists.
    Excluded { position: u32, items: Vec<Artist>, total: u32, exhausted: bool },
    /// The position after `position` is being saved.
    Commit { position: u32, artists: Vec<Artist>, total: u32, exhausted: bool },
    /// The step is over.
    Finished(Result<Discovered, Failure>),
}

/// One discovery step for one genre. The step is strictly sequential: it
/// asks for one thing at a time and moves on only when that thing has
/// happened.
#[derive(Debug, PartialEq, Eq)]
pub struct Discovery {
    music_genre_id: u32,
    search_key: String,
    stage: Stage,
}

/// Mathematical value of a [`Discovered`].
pub struct DiscoveredView {
    pub artists: Seq<Artist>,
    pub total: u32,
    pub exhausted: bool,
    pub progress: MusicSearchProgress,
}

/// Mathematical value of a [`Stage`].
pub enum StageView {
    Token,
    Progress { token: Seq<char> },
    Page { token: Seq<char>, position: u32 },
    Excluded { position: u32, items: Seq<Artist>, total: u32, exhausted: bool },
    Commit { position: u32, artists: Seq<Artist>, total: u32, exhausted: bool },
    Finished(Result<DiscoveredView, FailureView>),
}

/// Mathematical value of a [`Discovery`].
pub struct DiscoveryView {
    pub music_genre_id: u32,
    pub search_key: Seq<char>,
    pub stage: StageView,
}

impl View for Discovered {
    type V = DiscoveredView;

    open spec fn view(&self) -> DiscoveredView {
        DiscoveredView {
            artists: self.artists@,
            total: self.total,
            exhausted: self.exhausted,
            progress: self.progress,
        }
    }
}

impl View for Stage {
    type V = StageView;

    open spec fn view(&self) -> StageView {
        match self {
            Stage::Token => StageView::Token,
            Stage::Progress { token } => StageView::Progress { token: token@ },
            Stage::Page { token, position, .. } => StageView::Page {
                token: token@,
                position: *position,
            },
            Stage::Excluded { position, items, total, exhausted } => StageView::Excluded {
                position: *position,
                items: items@,
                total: *total,
                exhausted: *exhausted,
            },
            Stage::Commit { position, artists, total, exhausted } => StageView::Commit {
                position: *position,
                artists: artists@,
                total: *total,
                exhausted: *exhausted,
            },
            Stage::Finished(outcome) => StageView::Finished(
                match outcome {
                    Ok(discovered) => Ok(discovered@),
                    Err(failure) => Err(failure@),
                },
            ),
        }
    }
}

impl View for Discovery {
    type V = DiscoveryView;

    closed spec fn view(&self) -> DiscoveryView {
        DiscoveryView {
            music_genre_id: self.music_genre_id,
            search_key: self.search_key@,
            stage: self.stage@,
        }
    }
}

/// The identifiers of the artists, in their order.
pub open spec fn ids_of(items: Seq<Artist>) -> Seq<Seq<char>> {
    Seq::new(items.len(), |i: int| items[i].id@)
}

/// The cause reported when a stored position lies beyond every page that
/// can be asked for.
pub open spec fn unreachable_page() -> Seq<char> {
    "the stored position is beyond the pages that can be requested"@
}

/// A step for the genre, before anything has happened.
pub open spec fn begun(music_genre_id: u32, search_key: Seq<char>) -> DiscoveryView {
    DiscoveryView { music_genre_id, search_key, stage: StageView::Token }
}

/// The stage a step is in after `event`, coming from `stage`.
///
/// A stage moves on only with the event that answers its request. A
/// failure ends the step with the failure of the stage it happened in. An
/// event that answers nothing leaves the stage as it is.
pub open spec fn next_stage(stage: StageView, event: EventView) -> StageView {
    match (stage, event) {
        (StageView::Token, EventView::Token(token)) => StageView::Progress { token },
        (StageView::Token, EventView::Failed(cause)) => StageView::Finished(
            Err(FailureView::AuthFailure { cause }),
        ),
        (StageView::Progress { token }, EventView::Progress(found)) => if reachable(
            position_of(found),
        ) {
            StageView::Page { token, position: position_of(found) }
        } else {
            StageView::Finished(
                Err(
                    FailureView::UpstreamRequestFailed {
                        endpoint: Endpoint::Search,
                        cause: unreachable_page(),
                    },
                ),
            )
        },
        (StageView::Progress { .. }, EventView::Failed(cause)) => StageView::Finished(
            Err(FailureView::StorageFailure { operation: Operation::FindProgress, cause }),
        ),
        (StageView::Page { position, .. }, EventView::Page(response)) => if response.artists.items@.len()
            == 0 {
            StageView::Commit {
                position,
                artists: Seq::empty(),
                total: response.artists.total,
                exhausted: last_page(response.artists),
            }
        } else {
            StageView::Excluded {
                position,
                items: response.artists.items@,
                total: response.artists.total,
                exhausted: last_page(response.artists),
            }
        },
        (StageView::Page { .. }, EventView::Failed(cause)) => StageView::Finished(
            Err(FailureView::UpstreamRequestFailed { endpoint: Endpoint::Search, cause }),
        ),
        (
            StageView::Excluded { position, items, total, exhausted },
            EventView::Excluded(rows),
        ) => StageView::Commit { position, artists: kept(items, rows), total, exhausted },
        (StageView::Excluded { .. }, EventView::Failed(cause)) => StageView::Finished(
            Err(FailureView::StorageFailure { operation: Operation::FindExcludedArtists, cause }),
        ),
        (StageView::Commit { artists, total, exhausted, .. }, EventView::Saved(progress)) => {
            StageView::Finished(Ok(DiscoveredView { artists, total, exhausted, progress }))
        },
        (StageView::Commit { .. }, EventView::Failed(cause)) => StageView::Finished(
            Err(FailureView::StorageFailure { operation: Operation::UpdateProgress, cause }),
        ),
        (stage, _) => stage,
    }
}

/// The step after `event`.
pub open spec fn next(step: DiscoveryView, event: EventView) -> DiscoveryView {
    DiscoveryView { stage: next_stage(step.stage, event), ..step }
}

/// What a step asks for while it stands as `step`.
pub open spec fn pending_action(step: DiscoveryView) -> ActionView {
    match step.stage {
        StageView::Token => ActionView::AcquireToken,
        StageView::Progress { .. } => ActionView::FindProgress { music_genre_id: step.music_genre_id },
        StageView::Page { token, position } => ActionView::Fetch(
            search_request(
                token,
                Some((position * PAGE_SIZE) as u32),
                Some(PAGE_SIZE),
                Some(step.search_key),
            ),
        ),
        StageView::Excluded { items, .. } => ActionView::FindExcluded { ids: ids_of(items) },
        StageView::Commit { position, .. } => ActionView::SaveProgress {
            music_genre_id: step.music_genre_id,
            position: (position + 1) as u32,
        },
        StageView::Finished(_) => ActionView::Finish,
    }
}

/// The page of the genre's search that follows `position` consumed pages.
pub open spec fn page_at(search_key: Seq<char>, position: u32) -> SearchPageView {
    SearchPageView { genre: search_key, offset: (position * PAGE_SIZE) as u32, limit: PAGE_SIZE }
}

fn artist_ids(items: &Vec<Artist>) -> (ids: Vec<String>)
    ensures
        crate::text::texts(ids@) == ids_of(items@),
{
    let mut ids: Vec<String> = Vec::new();
    let mut i: usize = 0;
    while i < items.len()
        invariant
            i <= items.len(),
            ids@.len() == i,
            forall|k: int| 0 <= k < i ==> (#[trigger] ids@[k])@ == items@[k].id@,
        decreases items.len() - i,
    {
        ids.push(items[i].id.clone());
        i += 1;
    }
    assert(crate::text::texts(ids@) =~= ids_of(items@));
    ids
}

impl Discovery {
    #[verifier::type_invariant]
    spec fn well_formed(&self) -> bool {
        match self.stage {
            Stage::Page { position, page, .. } => {
                &&& reachable(position)
                &&& page@ == page_at(self.search_key@, position)
            },
            Stage::Excluded { position, .. } => reachable(position),
            Stage::Commit { position, .. } => reachable(position),
            _ => true,
        }
    }

    /// A step for the genre with the given row identifier and search key.
    pub fn start(music_genre_id: u32, search_key: String) -> (step: Self)
        ensures
            step@ == begun(music_genre_id, search_key@),
    {
        Discovery { music_genre_id, search_key, stage: Stage::Token }
    }

    /// A step for the given genre.
    pub fn of(genre: &MusicGenre) -> (step: Self)
        ensures
            step@ == begun(genre.id, genre.search_key@),
    {
        Self::start(genre.id, genre.search_key.clone())
    }

    /// The key that the step searches the genre by.
    pub fn search_key(&self) -> (key: &str)
        ensures
            key@ == self@.search_key,
    {
        self.search_key.as_str()
    }

    /// Whether the step is over.
    pub fn finished(&self) -> (over: bool)
        ensures
            over == (self@.stage is Finished),
    {
        match &self.stage {
            Stage::Finished(_) => true,
            _ => false,
        }
    }

    /// What the step asks for now.
    pub fn pending(&self) -> (action: Action)
        ensures
            action@ == pending_action(self@),
    {
        proof {
            use_type_invariant(self);
        }
        match &self.stage {
            Stage::Token => Action::AcquireToken,
            Stage::Progress { .. } => Action::FindProgress { music_genre_id: self.music_genre_id },
            Stage::Page { token, page, .. } => Action::Fetch(get(token.as_str(), &page.query())),
            Stage::Excluded { items, .. } => Action::FindExcluded { ids: artist_ids(items) },
            Stage::Commit { position, .. } => Action::SaveProgress {
                music_genre_id: self.music_genre_id,
                input: UpsertInput::new(*position + 1),
            },
            Stage::Finished(_) => Action::Finish,
        }
    }

    /// Takes in what happened outside and moves the step on.
    pub fn step(self, event: Event) -> (step: Self)
        ensures
            step@ == next(self@, event@),
    {
        proof {
            use_type_invariant(&self);
        }
        let Discovery { music_genre_id, search_key, stage } = self;
        let stage = match (stage, event) {
            (Stage::Token, Event::Token(token)) => Stage::Progress { token },
            (Stage::Token, Event::Failed(cause)) => Stage::Finished(
                Err(Failure::AuthFailure { cause }),
            ),
            (Stage::Progress { token }, Event::Progress(found)) => {
                let position = match found {
                    Some(row) => row.position,
                    None => 0,
                };
                match SearchPage::at_position(search_key.clone(), position) {
                    Some(page) => Stage::Page { token, position, page },
                    None => Stage::Finished(
                        Err(
                            Failure::upstream(
                                Endpoint::Search,
                                "the stored position is beyond the pages that can be requested",
                            ),
                        ),
                    ),
                }
            },
            (Stage::Progress { .. }, Event::Failed(cause)) => Stage::Finished(
                Err(Failure::StorageFailure { operation: Operation::FindProgress, cause }),
            ),
            (Stage::Page { position, .. }, Event::Page(response)) => {
                let exhausted = response.artists.is_last();
                let total = response.artists.total;
                let items = response.artists.items;
                if items.len() == 0 {
                    assert(items@ =~= Seq::<Artist>::empty());
                    Stage::Commit { position, artists: items, total, exhausted }
                } else {
                    Stage::Excluded { position, items, total, exhausted }
                }
            },
            (Stage::Page { .. }, Event::Failed(cause)) => Stage::Finished(
                Err(Failure::UpstreamRequestFailed { endpoint: Endpoint::Search, cause }),
            ),
            (Stage::Excluded { position, items, total, exhausted }, Event::Excluded(rows)) => {
                Stage::Commit {
                    position,
                    artists: keep_allowed(items, rows.as_slice()),
                    total,
                    exhausted,
                }
            },
            (Stage::Excluded { .. }, Event::Failed(cause)) => Stage::Finished(
                Err(Failure::StorageFailure { operation: Operation::FindExcludedArtists, cause }),
            ),
            (Stage::Commit { artists, total, exhausted, .. }, Event::Saved(progress)) => {
                Stage::Finished(Ok(Discovered { artists, total, exhausted, progress }))
            },
            (Stage::Commit { .. }, Event::Failed(cause)) => Stage::Finished(
                Err(Failure::StorageFailure { operation: Operation::UpdateProgress, cause }),
            ),
            (stage, _) => stage,
        };
        Discovery { music_genre_id, search_key, stage }
    }

    /// The outcome of a step that is over; none while it is under way.
    pub fn outcome(self) -> (outcome: Option<Result<Discovered, Failure>>)
        ensures
            match outcome {
                Some(Ok(discovered)) => self@.stage == StageView::Finished(Ok(discovered@)),
                Some(Err(failure)) => self@.stage == StageView::Finished(Err(failure@)),
                None => !(self@.stage is Finished),
            },
    {
        match self.stage {
            Stage::Finished(outcome) => Some(outcome),
            _ => None,
        }
    }
}

/// The step after the events happened in order.
pub open spec fn after(step: DiscoveryView, events: Seq<EventView>) -> DiscoveryView
    decreases events.len(),
{
    if events.len() == 0 {
        step
    } else {
        next(after(step, events.drop_last()), events.last())
    }
}

/// Whether a stage lies behind the fetch.
pub open spec fn fetched(stage: StageView) -> bool {
    stage is Excluded || stage is Commit || stage matches StageView::Finished(Ok(_))
}

/// No position is saved without a fetched page: whatever happens to a step
/// from its beginning, it asks to save the position only after a page has
/// arrived, and it ends well only after the position has been saved too.
pub proof fn law_save_follows_fetch(
    music_genre_id: u32,
    search_key: Seq<char>,
    events: Seq<EventView>,
)
    ensures
        ({
            let step = after(begun(music_genre_id, search_key), events);
            &&& fetched(step.stage) ==> exists|i: int|
                0 <= i < events.len() && #[trigger] events[i] is Page
            &&& pending_action(step) is SaveProgress ==> fetched(step.stage)
            &&& step.stage matches StageView::Finished(Ok(_)) ==> exists|j: int|
                0 <= j < events.len() && #[trigger] events[j] is Saved
        }),
    decreases events.len(),
{
    if events.len() > 0 {
        let front = events.drop_last();
        let before = after(begun(music_genre_id, search_key), front);
        let step = after(begun(music_genre_id, search_key), events);
        law_save_follows_fetch(music_genre_id, search_key, front);
        if fetched(step.stage) {
            if fetched(before.stage) {
                let i = choose|i: int| 0 <= i < front.len() && #[trigger] front[i] is Page;
                assert(events[i] is Page);
            } else {
                assert(events[events.len() - 1] is Page);
            }
        }
        if step.stage matches StageView::Finished(Ok(_)) {
            if before.stage matches StageView::Finished(Ok(_)) {
                let j = choose|j: int| 0 <= j < front.len() && #[trigger] front[j] is Saved;
                assert(events[j] is Saved);
            } else {
                assert(events[events.len() - 1] is Saved);
            }
        }
    }
}

/// A failure ends a step at once: the step is over, it asks for nothing
/// more, and unless it had ended well before, it ends with a failure. A
/// failed fetch is reported as the failed call to the search endpoint, with
/// its cause.
pub proof fn law_failure_ends_step(step: DiscoveryView, cause: Seq<char>)
    ensures
        next(step, EventView::Failed(cause)).stage is Finished,
        pending_action(next(step, EventView::Failed(cause))) is Finish,
        !(step.stage is Finished) ==> next(step, EventView::Failed(cause)).stage matches StageView::Finished(
            Err(_),
        ),
        step.stage is Page ==> next(step, EventView::Failed(cause)).stage == StageView::Finished(
            Err(FailureView::UpstreamRequestFailed { endpoint: Endpoint::Search, cause }),
        ),
{
}

/// A step fetches the page at the stored position and then saves the next
/// position: once the token and the genre's row have arrived, it asks for
/// the page that starts as many page sizes in as the row says, and once
/// the page has arrived and its artists have been checked against the
/// exclusion list, it asks to save the position after the row's. A genre
/// without a row is searched from the start: offset zero, then position
/// one. The exclusion list is asked only about a page that holds artists.
pub proof fn law_step_fetches_then_saves(
    music_genre_id: u32,
    search_key: Seq<char>,
    token: Seq<char>,
    found: Option<MusicSearchProgress>,
    response: GetResponse,
    rows: Seq<ExcludedArtist>,
)
    requires
        reachable(position_of(found)),
    ensures
        ({
            let asked = after(
                begun(music_genre_id, search_key),
                seq![EventView::Token(token), EventView::Progress(found)],
            );
            let answered = next(asked, EventView::Page(response));
            let checked = if response.artists.items@.len() == 0 {
                answered
            } else {
                next(answered, EventView::Excluded(rows))
            };
            &&& pending_action(asked) == ActionView::Fetch(
                search_request(
                    token,
                    Some((position_of(found) * PAGE_SIZE) as u32),
                    Some(PAGE_SIZE),
                    Some(search_key),
                ),
            )
            &&& found.is_none() ==> position_of(found) * PAGE_SIZE == 0
            &&& response.artists.items@.len() == 0 ==> !(pending_action(answered) is FindExcluded)
            &&& pending_action(checked) == (ActionView::SaveProgress {
                music_genre_id,
                position: (position_of(found) + 1) as u32,
            })
        }),
{
    let start = begun(music_genre_id, search_key);
    let events = seq![EventView::Token(token), EventView::Progress(found)];
    assert(events.drop_last() =~= seq![EventView::Token(token)]);
    assert(events.drop_last().drop_last() =~= Seq::<EventView>::empty());
    reveal_with_fuel(after, 3);
    assert(after(start, events.drop_last()) == next(start, EventView::Token(token)));
}

} // verus!
