//! The most played tracks of an artist.

use crate::client::request::{pairs, Body, BodyView, Method, Request, RequestView};
use crate::constant::spotify::API_BASE_URL;
use crate::error::{Endpoint, Failure, FailureView};
use vstd::prelude::*;

verus! {

/// A track, as far as this crate reads it.
#[derive(Debug, PartialEq, Eq)]
pub struct Track {
    pub external_urls: ExternalUrls,
}

/// Where a track is found outside the API.
#[derive(Debug, PartialEq, Eq)]
pub struct ExternalUrls {
    pub spotify: String,
}

/// The request for the top tracks of `artist_id`.
pub open spec fn top_tracks_request(artist_id: Seq<char>, access_token: Seq<char>) -> RequestView {
    RequestView {
        method: Method::Get,
        url: API_BASE_URL@ + "/v1/artists/"@ + artist_id + "/top-tracks"@,
        bearer: Some(access_token),
        headers: Seq::empty(),
        query: Seq::empty(),
        body: BodyView::Empty,
    }
}

/// The request for the top tracks of an artist: a GET below the artist's
/// identifier, under bearer authentication.
pub fn get(artist_id: &str, access_token: &str) -> (request: Request)
    ensures
        request@ == top_tracks_request(artist_id@, access_token@),
{
    let mut url = API_BASE_URL.to_owned();
    url.append("/v1/artists/");
    url.append(artist_id);
    url.append("/top-tracks");
    let request = Request {
        method: Method::Get,
        url,
        bearer: Some(access_token.to_owned()),
        headers: Vec::new(),
        query: Vec::new(),
        body: Body::Empty,
    };
    assert(pairs(request.headers@) =~= Seq::empty());
    assert(pairs(request.query@) =~= Seq::empty());
    request
}

/// What the request gives: the tracks as they came, or the failed call
/// with its cause.
pub fn tracks(fetched: Result<Vec<Track>, String>) -> (tracks: Result<Vec<Track>, Failure>)
    ensures
        match (fetched, tracks) {
            (Ok(sent), Ok(tracks)) => tracks == sent,
            (Err(cause), Err(failure)) => failure@ == (FailureView::UpstreamRequestFailed {
                endpoint: Endpoint::TopTracks,
                cause: cause@,
            }),
            _ => false,
        },
{
    match fetched {
        Ok(tracks) => Ok(tracks),
        Err(cause) => Err(Failure::UpstreamRequestFailed { endpoint: Endpoint::TopTracks, cause }),
    }
}

} // verus!
