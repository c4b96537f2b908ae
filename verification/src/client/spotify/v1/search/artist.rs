//! Searching artists by genre, one page per request. The service keeps no
//! state between pages: the caller says where a page starts and how long
//! it is.

use crate::client::request::{pairs, Body, BodyView, Method, Pair, Request, RequestView};
use crate::constant::spotify::{API_BASE_URL, MAX_LIMIT, PAGE_SIZE};
use crate::text::{decimal, decimal_string};
use vstd::prelude::*;

verus! {

/// The answer to a search for artists.
#[derive(Debug, PartialEq, Eq)]
pub struct GetResponse {
    pub artists: ArtistsPage,
}

/// One page of found artists, with where it stands among all of them.
#[derive(Debug, PartialEq, Eq)]
pub struct ArtistsPage {
    pub href: String,
    pub limit: u32,
    pub next: Option<String>,
    pub offset: u32,
    pub previous: Option<String>,
    pub total: u32,
    pub items: Vec<Artist>,
}

/// A found artist.
#[derive(Debug, PartialEq, Eq)]
pub struct Artist {
    pub external_urls: ExternalUrls,
    pub followers: Followers,
    pub genres: Vec<String>,
    pub href: String,
    pub id: String,
    pub images: Vec<Image>,
    pub name: String,
    pub popularity: u32,
    pub artist_type: String,
    pub uri: String,
}

/// Where an artist is found outside the API.
#[derive(Debug, PartialEq, Eq)]
pub struct ExternalUrls {
    pub spotify: String,
}

/// How many users follow an artist.
#[derive(Debug, PartialEq, Eq)]
pub struct Followers {
    pub href: Option<String>,
    pub total: u32,
}

/// A picture of an artist.
#[derive(Debug, PartialEq, Eq)]
pub struct Image {
    pub url: String,
    pub height: u32,
    pub width: u32,
}

/// What to search for. A part that is left out is sent empty.
#[derive(Debug, PartialEq, Eq)]
pub struct GetQuery {
    pub offset: Option<u32>,
    pub limit: Option<u32>,
    pub genre: Option<String>,
}

/// The text a number is sent as: its decimal numeral, or nothing.
pub open spec fn number_text(number: Option<u32>) -> Seq<char> {
    match number {
        Some(number) => decimal(number as nat),
        None => Seq::empty(),
    }
}

/// The genre of a query, as text.
pub open spec fn genre_text(genre: Option<String>) -> Option<Seq<char>> {
    match genre {
        Some(genre) => Some(genre@),
        None => None,
    }
}

/// The search terms for a genre.
pub open spec fn genre_terms(genre: Option<Seq<char>>) -> Seq<char> {
    match genre {
        Some(genre) => "genre:"@ + genre,
        None => "genre:"@,
    }
}

/// The request for the page of artists of `genre` that starts at `offset`
/// and holds up to `limit` of them.
pub open spec fn search_request(
    access_token: Seq<char>,
    offset: Option<u32>,
    limit: Option<u32>,
    genre: Option<Seq<char>>,
) -> RequestView {
    RequestView {
        method: Method::Get,
        url: API_BASE_URL@ + "/v1/search"@,
        bearer: Some(access_token),
        headers: Seq::empty(),
        query: seq![
            ("type"@, "artist"@),
            ("q"@, genre_terms(genre)),
            ("offset"@, number_text(offset)),
            ("limit"@, number_text(limit)),
        ],
        body: BodyView::Empty,
    }
}

fn number_string(number: Option<u32>) -> (text: String)
    ensures
        text@ == number_text(number),
{
    match number {
        Some(number) => decimal_string(number),
        None => String::new(),
    }
}

/// The request for one page of the artists of a genre: a GET with the
/// genre as search terms and the page's offset and limit in decimal, under
/// bearer authentication. One request asks for one page; which page comes
/// next is the caller's affair.
pub fn get(access_token: &str, query: &GetQuery) -> (request: Request)
    ensures
        request@ == search_request(
            access_token@,
            query.offset,
            query.limit,
            genre_text(query.genre),
        ),
{
    let mut terms = "genre:".to_owned();
    match &query.genre {
        Some(genre) => {
            terms.append(genre.as_str());
        },
        None => {},
    }
    let offset = number_string(query.offset);
    let limit = number_string(query.limit);
    let mut pairs_sent: Vec<Pair> = Vec::new();
    pairs_sent.push(Pair::new("type", "artist"));
    pairs_sent.push(Pair::new("q", terms.as_str()));
    pairs_sent.push(Pair::new("offset", offset.as_str()));
    pairs_sent.push(Pair::new("limit", limit.as_str()));
    let request = Request {
        method: Method::Get,
        url: API_BASE_URL.to_owned().concat("/v1/search"),
        bearer: Some(access_token.to_owned()),
        headers: Vec::new(),
        query: pairs_sent,
        body: Body::Empty,
    };
    assert(pairs(request.headers@) =~= Seq::empty());
    assert(pairs(request.query@) =~= seq![
        ("type"@, "artist"@),
        ("q"@, genre_terms(genre_text(query.genre))),
        ("offset"@, number_text(query.offset)),
        ("limit"@, number_text(query.limit)),
    ]);
    request
}

/// A page of a genre's search, as the client computes it: the genre's
/// search key, the offset of the page's first artist and the page's length,
/// which is positive and at most the service's maximum.
#[derive(Debug, PartialEq, Eq)]
pub struct SearchPage {
    genre: String,
    offset: u32,
    limit: u32,
}

/// Mathematical value of a [`SearchPage`].
pub struct SearchPageView {
    pub genre: Seq<char>,
    pub offset: u32,
    pub limit: u32,
}

impl View for SearchPage {
    type V = SearchPageView;

    closed spec fn view(&self) -> SearchPageView {
        SearchPageView { genre: self.genre@, offset: self.offset, limit: self.limit }
    }
}

/// Whether a page of the usual size can start at `position` pages into a
/// search: its offset must fit the offset's type.
pub open spec fn reachable(position: u32) -> bool {
    position * PAGE_SIZE <= u32::MAX
}

impl SearchPage {
    #[verifier::type_invariant]
    spec fn well_formed(&self) -> bool {
        1 <= self.limit <= MAX_LIMIT
    }

    /// The page of `limit` artists of `genre` from `offset` on; none unless
    /// the limit is positive and at most the service's maximum.
    pub fn new(genre: String, offset: u32, limit: u32) -> (page: Option<Self>)
        ensures
            match page {
                Some(page) => {
                    &&& 1 <= limit <= MAX_LIMIT
                    &&& page@ == (SearchPageView { genre: genre@, offset, limit })
                },
                None => !(1 <= limit <= MAX_LIMIT),
            },
    {
        if 1 <= limit && limit <= MAX_LIMIT {
            Some(SearchPage { genre, offset, limit })
        } else {
            None
        }
    }

    /// The page of a genre's search that follows `position` consumed pages
    /// of the usual size. A position counts pages, not artists: the page
    /// starts `position` times the page size into the results. There is
    /// none where that offset does not fit.
    pub fn at_position(genre: String, position: u32) -> (page: Option<Self>)
        ensures
            match page {
                Some(page) => {
                    &&& reachable(position)
                    &&& page@ == (SearchPageView {
                        genre: genre@,
                        offset: (position * PAGE_SIZE) as u32,
                        limit: PAGE_SIZE,
                    })
                },
                None => !reachable(position),
            },
    {
        if position <= u32::MAX / PAGE_SIZE {
            Some(SearchPage { genre, offset: position * PAGE_SIZE, limit: PAGE_SIZE })
        } else {
            None
        }
    }

    /// The query that asks for this page.
    pub fn query(&self) -> (query: GetQuery)
        ensures
            1 <= self@.limit <= MAX_LIMIT,
            query.offset == Some(self@.offset),
            query.limit == Some(self@.limit),
            genre_text(query.genre) == Some(self@.genre),
    {
        proof {
            use_type_invariant(self);
        }
        GetQuery {
            offset: Some(self.offset),
            limit: Some(self.limit),
            genre: Some(self.genre.clone()),
        }
    }
}

/// Whether nothing is left to find behind a page: it came shorter than
/// asked for, or it reaches the total.
pub open spec fn last_page(page: ArtistsPage) -> bool {
    page.items@.len() < page.limit || page.offset + page.items@.len() >= page.total
}

impl ArtistsPage {
    /// Whether the search is exhausted with this page.
    pub fn is_last(&self) -> (last: bool)
        ensures
            last == last_page(*self),
    {
        let count: u128 = self.items.len() as u128;
        count < self.limit as u128 || self.offset as u128 + count >= self.total as u128
    }
}

} // verus!
