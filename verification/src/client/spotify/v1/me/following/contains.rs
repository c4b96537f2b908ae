//! Whether the user follows given artists or users.

use crate::client::request::{pairs, Body, BodyView, Method, Pair, Request, RequestView};
use crate::constant::spotify::API_BASE_URL;
use crate::text::{join, joined, texts};
use vstd::prelude::*;

verus! {

/// What kind of identifiers a membership check is about.
#[derive(Clone, Copy, Debug, PartialEq, Eq, Structural)]
pub enum Type {
    Artist,
    User,
}

/// The value of the `type` parameter for a kind.
pub open spec fn type_text(kind: Type) -> Seq<char> {
    match kind {
        Type::Artist => "artist"@,
        Type::User => "user"@,
    }
}

/// The request that checks `ids` of the given kind.
pub open spec fn contains_request(access_token: Seq<char>, kind: Type, ids: Seq<Seq<char>>) -> RequestView {
    RequestView {
        method: Method::Get,
        url: API_BASE_URL@ + "/v1/me/following/contains"@,
        bearer: Some(access_token),
        headers: Seq::empty(),
        query: seq![("type"@, type_text(kind)), ("ids"@, joined(ids, ","@))],
        body: BodyView::Empty,
    }
}

/// The request that asks, for each of `ids`, whether the user follows it:
/// a GET with the identifiers joined by commas, under bearer
/// authentication. The service answers with one flag per identifier, in the
/// identifiers' order.
pub fn get(access_token: &str, kind: Type, ids: &[String]) -> (request: Request)
    ensures
        request@ == contains_request(access_token@, kind, texts(ids@)),
{
    let kind_text = match kind {
        Type::Artist => "artist",
        Type::User => "user",
    };
    let list = join(ids, ",");
    let mut query: Vec<Pair> = Vec::new();
    query.push(Pair::new("type", kind_text));
    query.push(Pair::new("ids", list.as_str()));
    let request = Request {
        method: Method::Get,
        url: API_BASE_URL.to_owned().concat("/v1/me/following/contains"),
        bearer: Some(access_token.to_owned()),
        headers: Vec::new(),
        query,
        body: Body::Empty,
    };
    assert(pairs(request.headers@) =~= Seq::empty());
    assert(pairs(request.query@) =~= seq![
        ("type"@, type_text(kind)),
        ("ids"@, joined(texts(ids@), ","@)),
    ]);
    request
}

} // verus!
