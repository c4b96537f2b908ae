//! Starting playback.

use crate::client::request::{pairs, Body, BodyView, Method, Pair, Request, RequestView};
use crate::constant::spotify::API_BASE_URL;
use vstd::prelude::*;

verus! {

/// The request that starts playback of `context_uri`.
pub open spec fn play_request(access_token: Seq<char>, context_uri: Seq<char>) -> RequestView {
    RequestView {
        method: Method::Put,
        url: API_BASE_URL@ + "/v1/me/player/play"@,
        bearer: Some(access_token),
        headers: seq![("Content-type"@, "application/json"@)],
        query: Seq::empty(),
        body: BodyView::ContextUri(context_uri),
    }
}

/// The request that starts playback of an album, artist or playlist: a PUT
/// whose JSON body names the context, under bearer authentication.
pub fn put(access_token: &str, context_uri: &str) -> (request: Request)
    ensures
        request@ == play_request(access_token@, context_uri@),
{
    let mut headers: Vec<Pair> = Vec::new();
    headers.push(Pair::new("Content-type", "application/json"));
    let request = Request {
        method: Method::Put,
        url: API_BASE_URL.to_owned().concat("/v1/me/player/play"),
        bearer: Some(access_token.to_owned()),
        headers,
        query: Vec::new(),
        body: Body::ContextUri(context_uri.to_owned()),
    };
    assert(pairs(request.headers@) =~= seq![("Content-type"@, "application/json"@)]);
    assert(pairs(request.query@) =~= Seq::empty());
    request
}

} // verus!
