//! The artists the user follows: listing them page by page, and following
//! more.

use crate::client::request::{pairs, Body, BodyView, Method, Pair, Request, RequestView};
use crate::constant::spotify::API_BASE_URL;
use crate::error::{Endpoint, Failure, FailureView};
use crate::text::{copy_strings, texts};
use vstd::prelude::*;

pub mod contains;

verus! {

/// A followed artist.
#[derive(Debug, PartialEq, Eq)]
pub struct Artist {
    pub id: String,
}

/// One page of the list of followed artists, as the service returns it.
#[derive(Debug, PartialEq, Eq)]
pub struct Page {
    /// The cursor of the next page; none on the last page.
    pub after: Option<String>,
    pub items: Vec<Artist>,
}

/// A walk through the list of followed artists: the artists collected so
/// far, and the cursor to continue at. The walk starts at the empty cursor
/// and is finished once a page comes without one.
#[derive(Debug, PartialEq, Eq)]
pub struct Following {
    artists: Vec<Artist>,
    after: Option<String>,
}

/// Mathematical value of a [`Following`].
pub struct FollowingView {
    pub artists: Seq<Artist>,
    pub after: Option<Seq<char>>,
}

impl View for Following {
    type V = FollowingView;

    closed spec fn view(&self) -> FollowingView {
        FollowingView {
            artists: self.artists@,
            after: match self.after {
                Some(after) => Some(after@),
                None => None,
            },
        }
    }
}

/// The cursor of a page, as text.
pub open spec fn cursor(page: Page) -> Option<Seq<char>> {
    match page.after {
        Some(after) => Some(after@),
        None => None,
    }
}

/// The walk before its first page.
pub open spec fn started() -> FollowingView {
    FollowingView { artists: Seq::empty(), after: Some(Seq::empty()) }
}

/// The walk after `page` arrived: an unfinished walk takes the page's items
/// behind its own and continues at the page's cursor; a finished walk
/// stays as it is.
pub open spec fn accepted(walk: FollowingView, page: Page) -> FollowingView {
    if walk.after.is_some() {
        FollowingView { artists: walk.artists + page.items@, after: cursor(page) }
    } else {
        walk
    }
}

/// The walk after the pages arrived in order.
pub open spec fn walked(pages: Seq<Page>) -> FollowingView
    decreases pages.len(),
{
    if pages.len() == 0 {
        started()
    } else {
        accepted(walked(pages.drop_last()), pages.last())
    }
}

/// The items of the pages, one page after the other.
pub open spec fn items_of(pages: Seq<Page>) -> Seq<Artist>
    decreases pages.len(),
{
    if pages.len() == 0 {
        Seq::empty()
    } else {
        items_of(pages.drop_last()) + pages.last().items@
    }
}

/// The request for the page at the cursor `after`.
pub open spec fn following_request(access_token: Seq<char>, after: Seq<char>) -> RequestView {
    RequestView {
        method: Method::Get,
        url: API_BASE_URL@ + "/v1/me/following"@,
        bearer: Some(access_token),
        headers: Seq::empty(),
        query: seq![("type"@, "artist"@), ("after"@, after)],
        body: BodyView::Empty,
    }
}

impl Following {
    /// The walk before its first page.
    pub fn start() -> (walk: Self)
        ensures
            walk@ == started(),
    {
        Following { artists: Vec::new(), after: Some(String::new()) }
    }

    /// Whether the last page has arrived.
    pub fn finished(&self) -> (done: bool)
        ensures
            done == self@.after.is_none(),
    {
        self.after.is_none()
    }

    /// Takes in what the walk's request gave. A page is added to the walk.
    /// A failure ends the walk with the failed call and its cause; what was
    /// collected is dropped, and nothing is asked again.
    pub fn accept(self, fetched: Result<Page, String>) -> (walk: Result<Self, Failure>)
        ensures
            match (fetched, walk) {
                (Ok(page), Ok(walk)) => walk@ == accepted(self@, page),
                (Err(cause), Err(failure)) => failure@ == (FailureView::UpstreamRequestFailed {
                    endpoint: Endpoint::Following,
                    cause: cause@,
                }),
                _ => false,
            },
    {
        match fetched {
            Err(cause) => Err(
                Failure::UpstreamRequestFailed { endpoint: Endpoint::Following, cause },
            ),
            Ok(page) => {
                if self.after.is_none() {
                    return Ok(self);
                }
                let mut artists = self.artists;
                let mut items = page.items;
                artists.append(&mut items);
                Ok(Following { artists, after: page.after })
            },
        }
    }

    /// The artists collected so far, in the order the service returned
    /// them: nothing is dropped and nothing is merged.
    pub fn artists(self) -> (artists: Vec<Artist>)
        ensures
            artists@ == self@.artists,
    {
        self.artists
    }
}

/// The request for the next page of followed artists, at the walk's
/// cursor; none once the walk is finished.
pub fn get(access_token: &str, walk: &Following) -> (request: Option<Request>)
    ensures
        match request {
            Some(request) => {
                &&& walk@.after.is_some()
                &&& request@ == following_request(access_token@, walk@.after.unwrap())
            },
            None => walk@.after.is_none(),
        },
{
    match &walk.after {
        None => None,
        Some(after) => {
            let mut query: Vec<Pair> = Vec::new();
            query.push(Pair::new("type", "artist"));
            query.push(Pair::new("after", after.as_str()));
            let request = Request {
                method: Method::Get,
                url: API_BASE_URL.to_owned().concat("/v1/me/following"),
                bearer: Some(access_token.to_owned()),
                headers: Vec::new(),
                query,
                body: Body::Empty,
            };
            assert(pairs(request.headers@) =~= Seq::empty());
            assert(pairs(request.query@) =~= seq![("type"@, "artist"@), ("after"@, after@)]);
            Some(request)
        },
    }
}

/// Whom a follow request is about.
#[derive(Clone, Copy, Debug, PartialEq, Eq, Structural)]
pub enum PutType {
    Artist,
    User,
}

/// The value of the `type` parameter for a kind.
pub open spec fn put_type_text(kind: PutType) -> Seq<char> {
    match kind {
        PutType::Artist => "artist"@,
        PutType::User => "user"@,
    }
}

/// The request that follows `ids` of the given kind.
pub open spec fn follow_request(access_token: Seq<char>, kind: PutType, ids: Seq<Seq<char>>) -> RequestView {
    RequestView {
        method: Method::Put,
        url: API_BASE_URL@ + "/v1/me/following"@,
        bearer: Some(access_token),
        headers: seq![("Content-Type"@, "application/json"@)],
        query: seq![("type"@, put_type_text(kind))],
        body: BodyView::Ids(ids),
    }
}

/// The request that makes the user follow `ids`: a PUT whose JSON body
/// lists the identifiers, under bearer authentication.
pub fn put(access_token: &str, kind: PutType, ids: &[String]) -> (request: Request)
    ensures
        request@ == follow_request(access_token@, kind, texts(ids@)),
{
    let kind_text = match kind {
        PutType::Artist => "artist",
        PutType::User => "user",
    };
    let mut headers: Vec<Pair> = Vec::new();
    headers.push(Pair::new("Content-Type", "application/json"));
    let mut query: Vec<Pair> = Vec::new();
    query.push(Pair::new("type", kind_text));
    let request = Request {
        method: Method::Put,
        url: API_BASE_URL.to_owned().concat("/v1/me/following"),
        bearer: Some(access_token.to_owned()),
        headers,
        query,
        body: Body::Ids(copy_strings(ids)),
    };
    assert(pairs(request.headers@) =~= seq![("Content-Type"@, "application/json"@)]);
    assert(pairs(request.query@) =~= seq![("type"@, put_type_text(kind))]);
    request
}

/// Cursor pagination ends with the first page that has no cursor. Where
/// every page but the last has one, the walk asks for each page in turn, is
/// finished after the last, and has then collected the items of all pages
/// in order.
pub proof fn law_walk_collects_all_pages(pages: Seq<Page>)
    requires
        pages.len() > 0,
        forall|i: int| 0 <= i < pages.len() - 1 ==> (#[trigger] pages[i]).after.is_some(),
        pages.last().after.is_none(),
    ensures
        forall|n: int| 0 <= n < pages.len() ==> (#[trigger] walked(pages.take(n))).after.is_some(),
        walked(pages).after.is_none(),
        walked(pages).artists == items_of(pages),
{
    assert forall|n: int| 0 <= n < pages.len() implies (#[trigger] walked(pages.take(n))).after.is_some()
        && walked(pages.take(n)).artists == items_of(pages.take(n)) by {
        lemma_unfinished_prefix(pages, n);
    }
    let front = pages.drop_last();
    assert(front =~= pages.take(pages.len() - 1));
    assert(walked(front).after.is_some());
}

/// While every page so far had a cursor, the walk is unfinished and holds
/// the items of those pages.
proof fn lemma_unfinished_prefix(pages: Seq<Page>, n: int)
    requires
        0 <= n <= pages.len(),
        forall|i: int| 0 <= i < n ==> (#[trigger] pages[i]).after.is_some(),
    ensures
        walked(pages.take(n)).after.is_some(),
        walked(pages.take(n)).artists == items_of(pages.take(n)),
    decreases n,
{
    if n > 0 {
        lemma_unfinished_prefix(pages, n - 1);
        assert(pages.take(n).drop_last() =~= pages.take(n - 1));
        assert(pages.take(n).last() == pages[n - 1]);
    }
}

} // verus!
