use spotify_mcp::client::request::{Body, Method, Pair};
use spotify_mcp::client::spotify::v1::artists::top_tracks;
use spotify_mcp::client::spotify::v1::me::following::{self, contains, PutType};
use spotify_mcp::client::spotify::v1::me::player::play;
use spotify_mcp::client::spotify::v1::search::artist::{self, ArtistsPage, GetQuery, SearchPage};
use spotify_mcp::constant::spotify::{API_BASE_URL, MAX_LIMIT, PAGE_SIZE};
use spotify_mcp::error::{Endpoint, Failure};

fn pair(name: &str, value: &str) -> Pair {
    Pair::new(name, value)
}

fn ids(list: &[&str]) -> Vec<String> {
    list.iter().map(|id| id.to_string()).collect()
}

#[test]
fn top_tracks_request_names_the_artist_in_the_path() {
    let request = top_tracks::get("4Z8W4fKeB5YxbusRsdQVPb", "tok");
    assert_eq!(request.method, Method::Get);
    assert_eq!(
        request.url,
        format!("{}/v1/artists/4Z8W4fKeB5YxbusRsdQVPb/top-tracks", API_BASE_URL)
    );
    assert_eq!(request.bearer, Some("tok".to_string()));
    assert!(request.headers.is_empty());
    assert!(request.query.is_empty());
    assert_eq!(request.body, Body::Empty);
}

#[test]
fn top_tracks_are_passed_on_or_the_call_has_failed() {
    let track = |url: &str| top_tracks::Track {
        external_urls: top_tracks::ExternalUrls { spotify: url.to_string() },
    };
    assert_eq!(
        top_tracks::tracks(Ok(vec![track("u1"), track("u2")])),
        Ok(vec![track("u1"), track("u2")])
    );
    assert_eq!(
        top_tracks::tracks(Err("status 404".to_string())),
        Err(Failure::UpstreamRequestFailed {
            endpoint: Endpoint::TopTracks,
            cause: "status 404".to_string(),
        })
    );
}

#[test]
fn follow_request_carries_the_ids_as_json_body() {
    let request = following::put("tok", PutType::Artist, &ids(&["a", "b"]));
    assert_eq!(request.method, Method::Put);
    assert_eq!(request.url, format!("{}/v1/me/following", API_BASE_URL));
    assert_eq!(request.bearer, Some("tok".to_string()));
    assert_eq!(request.headers, vec![pair("Content-Type", "application/json")]);
    assert_eq!(request.query, vec![pair("type", "artist")]);
    assert_eq!(request.body, Body::Ids(ids(&["a", "b"])));
}

#[test]
fn follow_request_for_users() {
    let request = following::put("tok", PutType::User, &ids(&["u"]));
    assert_eq!(request.query, vec![pair("type", "user")]);
    assert_eq!(request.body, Body::Ids(ids(&["u"])));
}

#[test]
fn contains_request_joins_the_ids_with_commas() {
    let request = contains::get("tok", contains::Type::Artist, &ids(&["a", "b", "c"]));
    assert_eq!(request.method, Method::Get);
    assert_eq!(request.url, format!("{}/v1/me/following/contains", API_BASE_URL));
    assert_eq!(request.bearer, Some("tok".to_string()));
    assert!(request.headers.is_empty());
    assert_eq!(request.query, vec![pair("type", "artist"), pair("ids", "a,b,c")]);
    assert_eq!(request.body, Body::Empty);
}

#[test]
fn contains_request_for_users_and_no_ids() {
    let request = contains::get("tok", contains::Type::User, &ids(&[]));
    assert_eq!(request.query, vec![pair("type", "user"), pair("ids", "")]);
}

#[test]
fn play_request_names_the_context() {
    let request = play::put("tok", "spotify:artist:1");
    assert_eq!(request.method, Method::Put);
    assert_eq!(request.url, format!("{}/v1/me/player/play", API_BASE_URL));
    assert_eq!(request.bearer, Some("tok".to_string()));
    assert_eq!(request.headers, vec![pair("Content-type", "application/json")]);
    assert!(request.query.is_empty());
    assert_eq!(request.body, Body::ContextUri("spotify:artist:1".to_string()));
}

#[test]
fn search_request_sends_offset_and_limit_in_decimal() {
    let query = GetQuery { offset: Some(40), limit: Some(20), genre: Some("jazz".to_string()) };
    let request = artist::get("tok", &query);
    assert_eq!(request.method, Method::Get);
    assert_eq!(request.url, format!("{}/v1/search", API_BASE_URL));
    assert_eq!(request.bearer, Some("tok".to_string()));
    assert!(request.headers.is_empty());
    assert_eq!(
        request.query,
        vec![
            pair("type", "artist"),
            pair("q", "genre:jazz"),
            pair("offset", "40"),
            pair("limit", "20"),
        ]
    );
    assert_eq!(request.body, Body::Empty);
}

#[test]
fn search_request_sends_missing_parts_empty() {
    let query = GetQuery { offset: None, limit: None, genre: None };
    let request = artist::get("tok", &query);
    assert_eq!(
        request.query,
        vec![pair("type", "artist"), pair("q", "genre:"), pair("offset", ""), pair("limit", "")]
    );
}

#[test]
fn search_request_with_the_largest_offset() {
    let query = GetQuery { offset: Some(u32::MAX), limit: Some(1), genre: Some("k-pop".to_string()) };
    let request = artist::get("tok", &query);
    assert_eq!(request.query[1], pair("q", "genre:k-pop"));
    assert_eq!(request.query[2], pair("offset", "4294967295"));
    assert_eq!(request.query[3], pair("limit", "1"));
}

#[test]
fn search_page_needs_a_limit_within_the_service_maximum() {
    assert!(SearchPage::new("jazz".to_string(), 0, 0).is_none());
    assert!(SearchPage::new("jazz".to_string(), 0, MAX_LIMIT + 1).is_none());
    let page = SearchPage::new("jazz".to_string(), 7, MAX_LIMIT).unwrap();
    assert_eq!(
        page.query(),
        GetQuery { offset: Some(7), limit: Some(50), genre: Some("jazz".to_string()) }
    );
    let page = SearchPage::new("jazz".to_string(), 7, 1).unwrap();
    assert_eq!(page.query().limit, Some(1));
}

#[test]
fn search_page_at_a_position_starts_that_many_pages_in() {
    assert_eq!(PAGE_SIZE, 20);
    let page = SearchPage::at_position("jazz".to_string(), 0).unwrap();
    assert_eq!(
        page.query(),
        GetQuery { offset: Some(0), limit: Some(20), genre: Some("jazz".to_string()) }
    );
    let page = SearchPage::at_position("jazz".to_string(), 3).unwrap();
    assert_eq!(page.query().offset, Some(60));
}

#[test]
fn search_page_at_the_last_reachable_position() {
    let last = u32::MAX / PAGE_SIZE;
    let page = SearchPage::at_position("jazz".to_string(), last).unwrap();
    assert_eq!(page.query().offset, Some(4294967280));
    assert!(SearchPage::at_position("jazz".to_string(), last + 1).is_none());
    assert!(SearchPage::at_position("jazz".to_string(), u32::MAX).is_none());
}

fn page_of(count: usize, offset: u32, limit: u32, total: u32) -> ArtistsPage {
    let mut items = Vec::new();
    for i in 0..count {
        items.push(artist::Artist {
            external_urls: artist::ExternalUrls { spotify: String::new() },
            followers: artist::Followers { href: None, total: 0 },
            genres: Vec::new(),
            href: String::new(),
            id: format!("id{}", i),
            images: Vec::new(),
            name: String::new(),
            popularity: 0,
            artist_type: "artist".to_string(),
            uri: String::new(),
        });
    }
    ArtistsPage {
        href: String::new(),
        limit,
        next: None,
        offset,
        previous: None,
        total,
        items,
    }
}

#[test]
fn a_full_page_before_the_total_is_not_the_last() {
    assert!(!page_of(20, 0, 20, 100).is_last());
    assert!(!page_of(20, 60, 20, 81).is_last());
}

#[test]
fn a_short_page_or_one_that_reaches_the_total_is_the_last() {
    assert!(page_of(19, 0, 20, 100).is_last());
    assert!(page_of(0, 0, 20, 0).is_last());
    assert!(page_of(20, 80, 20, 100).is_last());
    assert!(page_of(20, u32::MAX, 20, u32::MAX).is_last());
}
