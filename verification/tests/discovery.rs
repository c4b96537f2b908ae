use chrono::{NaiveDate, NaiveDateTime};
use spotify_mcp::client::request::{Pair, Request};
use spotify_mcp::client::spotify::v1::search::artist::{
    Artist, ArtistsPage, ExternalUrls, Followers, GetResponse,
};
use spotify_mcp::constant::spotify::PAGE_SIZE;
use spotify_mcp::discovery::{genre_state, keep_allowed, Discovered, Discovery, GenreState};
use spotify_mcp::error::{Endpoint, Failure, Operation};
use spotify_mcp::model::excluded_artist::{ExcludedArtist, ExclusionList, InsertInput};
use spotify_mcp::model::music_genre::MusicGenre;
use spotify_mcp::model::music_search_progress::{MusicSearchProgress, ProgressTable, UpsertInput};
use spotify_mcp::outside::{Action, Event};

fn at(minute: u32) -> NaiveDateTime {
    NaiveDate::from_ymd_opt(2024, 5, 1).unwrap().and_hms_opt(12, minute, 0).unwrap()
}

fn artist(id: &str) -> Artist {
    Artist {
        external_urls: ExternalUrls { spotify: format!("https://open.example/{}", id) },
        followers: Followers { href: None, total: 10 },
        genres: vec!["jazz".to_string()],
        href: String::new(),
        id: id.to_string(),
        images: Vec::new(),
        name: format!("Artist {}", id),
        popularity: 50,
        artist_type: "artist".to_string(),
        uri: format!("spotify:artist:{}", id),
    }
}

fn response(ids: &[&str], offset: u32, total: u32) -> GetResponse {
    GetResponse {
        artists: ArtistsPage {
            href: String::new(),
            limit: PAGE_SIZE,
            next: None,
            offset,
            previous: None,
            total,
            items: ids.iter().map(|id| artist(id)).collect(),
        },
    }
}

fn excluded_row(id: &str) -> ExcludedArtist {
    ExcludedArtist { id: id.to_string(), name: format!("Artist {}", id), created_at: at(0) }
}

fn offset_of(request: &Request) -> String {
    assert_eq!(request.query[2].name, "offset");
    request.query[2].value.clone()
}

/// The outside world of a step: a token source, an upstream and the two
/// tables, with a record of what the step asked for.
struct World {
    token: Result<String, String>,
    upstream: Result<GetResponse, String>,
    progress: ProgressTable,
    exclusions: ExclusionList,
    refuse_save: bool,
    fetched_offsets: Vec<String>,
    exclusion_queries: usize,
    saves: usize,
}

impl World {
    fn new(upstream: Result<GetResponse, String>) -> World {
        World {
            token: Ok("tok".to_string()),
            upstream,
            progress: ProgressTable::new(),
            exclusions: ExclusionList::new(),
            refuse_save: false,
            fetched_offsets: Vec::new(),
            exclusion_queries: 0,
            saves: 0,
        }
    }

    fn answer(&mut self, action: Action) -> Event {
        match action {
            Action::AcquireToken => match &self.token {
                Ok(token) => Event::Token(token.clone()),
                Err(cause) => Event::Failed(cause.clone()),
            },
            Action::FindProgress { music_genre_id } => Event::Progress(
                MusicSearchProgress::find_by_music_genre_id(&self.progress, music_genre_id),
            ),
            Action::Fetch(request) => {
                self.fetched_offsets.push(offset_of(&request));
                let placeholder = Err("taken".to_string());
                match std::mem::replace(&mut self.upstream, placeholder) {
                    Ok(response) => Event::Page(response),
                    Err(cause) => Event::Failed(cause),
                }
            }
            Action::FindExcluded { ids } => {
                self.exclusion_queries += 1;
                Event::Excluded(ExcludedArtist::find_by_ids(&self.exclusions, &ids))
            }
            Action::SaveProgress { music_genre_id, input } => {
                self.saves += 1;
                if self.refuse_save {
                    return Event::Failed("connection lost".to_string());
                }
                match MusicSearchProgress::upsert(&mut self.progress, music_genre_id, &input, at(30))
                {
                    Ok(row) => Event::Saved(row),
                    Err(failure) => Event::Failed(failure.message()),
                }
            }
            other => panic!("a discovery step does not ask for {:?}", other),
        }
    }

    fn run(&mut self, music_genre_id: u32, key: &str) -> Result<Discovered, Failure> {
        let mut step = Discovery::start(music_genre_id, key.to_string());
        while !step.finished() {
            let event = self.answer(step.pending());
            step = step.step(event);
        }
        assert_eq!(step.pending(), Action::Finish);
        step.outcome().expect("a finished step has an outcome")
    }
}

#[test]
fn a_step_begins_by_asking_for_a_token() {
    let step = Discovery::start(1, "jazz".to_string());
    assert!(!step.finished());
    assert_eq!(step.pending(), Action::AcquireToken);
    assert_eq!(step.outcome(), None);
}

#[test]
fn a_step_for_a_genre_uses_its_identifier_and_search_key() {
    let genre = MusicGenre {
        id: 7,
        name: "ジャズ".to_string(),
        search_key: "jazz".to_string(),
        created_at: at(0),
        updated_at: at(0),
    };
    assert_eq!(Discovery::of(&genre), Discovery::start(7, "jazz".to_string()));
}

#[test]
fn unstarted_genre_fetches_the_first_page_and_commits_position_one() {
    let mut world = World::new(Ok(response(&["a", "b"], 0, 100)));
    assert_eq!(MusicSearchProgress::find_by_music_genre_id(&world.progress, 7), None);
    let discovered = world.run(7, "jazz").unwrap();
    assert_eq!(world.fetched_offsets, vec!["0".to_string()]);
    assert_eq!(world.saves, 1);
    assert_eq!(discovered.artists, vec![artist("a"), artist("b")]);
    assert_eq!(discovered.total, 100);
    assert_eq!(discovered.progress.position, 1);
    assert_eq!(
        MusicSearchProgress::find_by_music_genre_id(&world.progress, 7).unwrap().position,
        1
    );
}

#[test]
fn a_started_genre_resumes_at_its_position() {
    let mut world = World::new(Ok(response(&["x"], 60, 100)));
    MusicSearchProgress::upsert(&mut world.progress, 7, &UpsertInput::new(3), at(1)).unwrap();
    let discovered = world.run(7, "jazz").unwrap();
    assert_eq!(world.fetched_offsets, vec!["60".to_string()]);
    assert_eq!(discovered.progress.position, 4);
    assert!(discovered.exhausted);
}

#[test]
fn the_fetch_request_asks_for_one_page_of_the_genre() {
    let step = Discovery::start(7, "jazz".to_string())
        .step(Event::Token("tok".to_string()))
        .step(Event::Progress(None));
    match step.pending() {
        Action::Fetch(request) => {
            assert_eq!(request.bearer, Some("tok".to_string()));
            assert_eq!(
                request.query,
                vec![
                    Pair::new("type", "artist"),
                    Pair::new("q", "genre:jazz"),
                    Pair::new("offset", "0"),
                    Pair::new("limit", "20"),
                ]
            );
        }
        other => panic!("expected a fetch, got {:?}", other),
    }
}

#[test]
fn excluded_artists_are_left_out_and_do_not_touch_the_position() {
    let mut world = World::new(Ok(response(&["a", "b", "c"], 0, 3)));
    let input = InsertInput::new("b".to_string(), "Artist b".to_string());
    ExcludedArtist::insert(&mut world.exclusions, &input, at(0)).unwrap();
    let discovered = world.run(7, "jazz").unwrap();
    assert_eq!(discovered.artists, vec![artist("a"), artist("c")]);
    assert_eq!(world.exclusion_queries, 1);
    assert_eq!(discovered.progress.position, 1);
    assert!(discovered.exhausted);
}

#[test]
fn an_empty_page_asks_the_exclusion_list_nothing() {
    let mut world = World::new(Ok(response(&[], 0, 0)));
    let discovered = world.run(7, "jazz").unwrap();
    assert_eq!(world.exclusion_queries, 0);
    assert_eq!(discovered.artists, Vec::new());
    assert!(discovered.exhausted);
    assert_eq!(discovered.progress.position, 1);
}

#[test]
fn a_failed_token_exchange_aborts_the_step() {
    let mut world = World::new(Ok(response(&["a"], 0, 1)));
    world.token = Err("invalid_grant".to_string());
    let outcome = world.run(7, "jazz");
    assert_eq!(outcome, Err(Failure::AuthFailure { cause: "invalid_grant".to_string() }));
    assert!(world.fetched_offsets.is_empty());
    assert_eq!(world.saves, 0);
    assert_eq!(MusicSearchProgress::find_by_music_genre_id(&world.progress, 7), None);
}

#[test]
fn a_failed_fetch_leaves_an_absent_row_absent() {
    let mut world = World::new(Err("connection reset".to_string()));
    let outcome = world.run(7, "jazz");
    assert_eq!(
        outcome,
        Err(Failure::UpstreamRequestFailed {
            endpoint: Endpoint::Search,
            cause: "connection reset".to_string(),
        })
    );
    assert_eq!(world.saves, 0);
    assert_eq!(MusicSearchProgress::find_by_music_genre_id(&world.progress, 7), None);
}

#[test]
fn a_failed_fetch_leaves_a_stored_position_as_it_was() {
    let mut world = World::new(Err("status 502".to_string()));
    let stored =
        MusicSearchProgress::upsert(&mut world.progress, 7, &UpsertInput::new(3), at(1)).unwrap();
    let outcome = world.run(7, "jazz");
    assert_eq!(
        outcome,
        Err(Failure::UpstreamRequestFailed {
            endpoint: Endpoint::Search,
            cause: "status 502".to_string(),
        })
    );
    assert_eq!(world.saves, 0);
    assert_eq!(MusicSearchProgress::find_by_music_genre_id(&world.progress, 7), Some(stored));
}

#[test]
fn a_failed_save_fails_the_step_after_a_good_fetch() {
    let mut world = World::new(Ok(response(&["a"], 0, 100)));
    world.refuse_save = true;
    let outcome = world.run(7, "jazz");
    assert_eq!(
        outcome,
        Err(Failure::StorageFailure {
            operation: Operation::UpdateProgress,
            cause: "connection lost".to_string(),
        })
    );
    assert_eq!(world.fetched_offsets.len(), 1);
    assert_eq!(MusicSearchProgress::find_by_music_genre_id(&world.progress, 7), None);
}

#[test]
fn failures_of_the_lookups_are_storage_failures() {
    let step = Discovery::start(7, "jazz".to_string())
        .step(Event::Token("tok".to_string()))
        .step(Event::Failed("pool timed out".to_string()));
    assert_eq!(
        step.outcome(),
        Some(Err(Failure::StorageFailure {
            operation: Operation::FindProgress,
            cause: "pool timed out".to_string(),
        }))
    );
    let step = Discovery::start(7, "jazz".to_string())
        .step(Event::Token("tok".to_string()))
        .step(Event::Progress(None))
        .step(Event::Page(response(&["a"], 0, 1)))
        .step(Event::Failed("pool timed out".to_string()));
    assert_eq!(
        step.outcome(),
        Some(Err(Failure::StorageFailure {
            operation: Operation::FindExcludedArtists,
            cause: "pool timed out".to_string(),
        }))
    );
}

#[test]
fn a_position_beyond_every_page_fails_the_fetch() {
    let far = MusicSearchProgress {
        id: 1,
        music_genre_id: 7,
        position: u32::MAX / PAGE_SIZE + 1,
        created_at: at(1),
        updated_at: at(1),
    };
    let step = Discovery::start(7, "jazz".to_string())
        .step(Event::Token("tok".to_string()))
        .step(Event::Progress(Some(far)));
    assert!(step.finished());
    assert_eq!(
        step.outcome(),
        Some(Err(Failure::UpstreamRequestFailed {
            endpoint: Endpoint::Search,
            cause: "the stored position is beyond the pages that can be requested".to_string(),
        }))
    );
}

#[test]
fn the_last_reachable_position_is_fetched_and_advanced() {
    let last = MusicSearchProgress {
        id: 1,
        music_genre_id: 7,
        position: u32::MAX / PAGE_SIZE,
        created_at: at(1),
        updated_at: at(1),
    };
    let step = Discovery::start(7, "jazz".to_string())
        .step(Event::Token("tok".to_string()))
        .step(Event::Progress(Some(last)));
    match step.pending() {
        Action::Fetch(request) => assert_eq!(offset_of(&request), "4294967280"),
        other => panic!("expected a fetch, got {:?}", other),
    }
    let step = step.step(Event::Page(response(&[], 0, 0)));
    assert_eq!(
        step.pending(),
        Action::SaveProgress {
            music_genre_id: 7,
            input: UpsertInput::new(u32::MAX / PAGE_SIZE + 1),
        }
    );
}

#[test]
fn an_event_that_answers_nothing_is_ignored() {
    let step = Discovery::start(7, "jazz".to_string()).step(Event::Progress(None));
    assert_eq!(step.pending(), Action::AcquireToken);
    let step = step.step(Event::Page(response(&["a"], 0, 1)));
    assert_eq!(step.pending(), Action::AcquireToken);
    let step = step
        .step(Event::Token("tok".to_string()))
        .step(Event::Token("other".to_string()))
        .step(Event::Saved(MusicSearchProgress {
            id: 1,
            music_genre_id: 7,
            position: 9,
            created_at: at(1),
            updated_at: at(1),
        }));
    assert_eq!(step.pending(), Action::FindProgress { music_genre_id: 7 });
}

#[test]
fn a_finished_step_stays_finished() {
    let step = Discovery::start(7, "jazz".to_string()).step(Event::Failed("no".to_string()));
    assert!(step.finished());
    let step = step.step(Event::Token("tok".to_string())).step(Event::Failed("again".to_string()));
    assert_eq!(step.pending(), Action::Finish);
    assert_eq!(step.outcome(), Some(Err(Failure::AuthFailure { cause: "no".to_string() })));
}

#[test]
fn keep_allowed_filters_by_identifier_and_keeps_the_order() {
    let items = vec![artist("a"), artist("b"), artist("c"), artist("b")];
    let rows = vec![excluded_row("b"), excluded_row("z")];
    assert_eq!(keep_allowed(items, &rows), vec![artist("a"), artist("c")]);
    assert_eq!(keep_allowed(vec![artist("a")], &[]), vec![artist("a")]);
    assert_eq!(keep_allowed(Vec::new(), &rows), Vec::new());
}

#[test]
fn genre_state_is_derived_from_position_and_total() {
    let row = |position: u32| MusicSearchProgress {
        id: 1,
        music_genre_id: 7,
        position,
        created_at: at(1),
        updated_at: at(1),
    };
    assert_eq!(genre_state(None, 100), GenreState::Unstarted);
    assert_eq!(genre_state(None, 0), GenreState::Unstarted);
    assert_eq!(genre_state(Some(row(0)), 100), GenreState::InProgress(0));
    assert_eq!(genre_state(Some(row(4)), 100), GenreState::InProgress(4));
    assert_eq!(genre_state(Some(row(5)), 100), GenreState::Exhausted);
    assert_eq!(genre_state(Some(row(0)), 0), GenreState::Exhausted);
    assert_eq!(genre_state(Some(row(u32::MAX)), u32::MAX), GenreState::Exhausted);
}
