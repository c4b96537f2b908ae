//! The token exchange: a long-lived refresh credential for a short-lived
//! bearer token. No token is kept: every operation that needs one asks anew.

use crate::client::request::{pairs, Body, BodyView, Method, Pair, Request, RequestView};
use crate::constant::spotify::API_BASE_URL;
use crate::error::{Failure, FailureView};
use base64::prelude::{Engine, BASE64_STANDARD};
use vstd::prelude::*;

verus! {

/// The client's identity and its refresh credential, supplied from outside.
#[derive(Debug, PartialEq, Eq)]
pub struct Credentials {
    pub client_id: String,
    pub client_secret: String,
    pub refresh_token: String,
}

/// The standard base64 encoding, with padding, of a text's UTF-8 bytes.
pub uninterp spec fn base64_standard(text: Seq<char>) -> Seq<char>;

/// Whether a text is short enough for its encoding to be allocated: its
/// UTF-8 form is at most a quarter of the address space.
pub open spec fn encodable(text: Seq<char>) -> bool {
    vstd::utf8::encode_utf8(text).len() <= usize::MAX / 4
}

/// Calls `base64::Engine::encode` on the crate's `STANDARD` engine. The
/// result is taken to be the base64 text of the input's bytes, which this
/// crate only names. Inputs whose encoded length could not be allocated are
/// left out.
#[verifier::external_body]
fn encode(text: &str) -> (encoded: String)
    requires
        encodable(text@),
    ensures
        encoded@ == base64_standard(text@),
{
    BASE64_STANDARD.encode(text)
}

/// Client id and secret as they are encoded for basic authentication.
pub open spec fn client_pair(client_id: Seq<char>, client_secret: Seq<char>) -> Seq<char> {
    client_id + ":"@ + client_secret
}

/// The `Authorization` value for an encoded client pair.
pub open spec fn basic(encoded: Seq<char>) -> Seq<char> {
    "Basic "@ + encoded
}

/// The token request for the given credentials.
pub open spec fn token_request(
    client_id: Seq<char>,
    client_secret: Seq<char>,
    refresh_token: Seq<char>,
) -> RequestView {
    RequestView {
        method: Method::Post,
        url: API_BASE_URL@ + "/api/token"@,
        bearer: None,
        headers: seq![
            ("Content-Type"@, "application/x-www-form-urlencoded"@),
            ("Authorization"@, basic(base64_standard(client_pair(client_id, client_secret)))),
        ],
        query: Seq::empty(),
        body: BodyView::Form(
            seq![("grant_type"@, "refresh_token"@), ("refresh_token"@, refresh_token)],
        ),
    }
}

/// The cause reported when the client pair is too long to encode.
pub open spec fn too_long() -> Seq<char> {
    "client credentials are too long to encode"@
}

/// The value of the `Authorization` header for an encoded client pair.
pub fn authorization(encoded: &str) -> (value: String)
    ensures
        value@ == basic(encoded@),
{
    "Basic ".to_owned().concat(encoded)
}

/// The token request with the given `Authorization` value.
pub fn request_with(authorization: &str, refresh_token: &str) -> (request: Request)
    ensures
        request@ == (RequestView {
            method: Method::Post,
            url: API_BASE_URL@ + "/api/token"@,
            bearer: None,
            headers: seq![
                ("Content-Type"@, "application/x-www-form-urlencoded"@),
                ("Authorization"@, authorization@),
            ],
            query: Seq::empty(),
            body: BodyView::Form(
                seq![("grant_type"@, "refresh_token"@), ("refresh_token"@, refresh_token@)],
            ),
        }),
{
    let mut headers: Vec<Pair> = Vec::new();
    headers.push(Pair::new("Content-Type", "application/x-www-form-urlencoded"));
    headers.push(Pair::new("Authorization", authorization));
    let mut form: Vec<Pair> = Vec::new();
    form.push(Pair::new("grant_type", "refresh_token"));
    form.push(Pair::new("refresh_token", refresh_token));
    let request = Request {
        method: Method::Post,
        url: API_BASE_URL.to_owned().concat("/api/token"),
        bearer: None,
        headers,
        query: Vec::new(),
        body: Body::Form(form),
    };
    assert(pairs(request.headers@) =~= seq![
        ("Content-Type"@, "application/x-www-form-urlencoded"@),
        ("Authorization"@, authorization@),
    ]);
    assert(pairs(request.query@) =~= Seq::empty());
    assert(pairs(form@) =~= seq![
        ("grant_type"@, "refresh_token"@),
        ("refresh_token"@, refresh_token@),
    ]);
    request
}

/// The request that exchanges the refresh credential for a bearer token:
/// a form-encoded POST under basic authentication by client id and secret.
/// It fails, as a failed exchange, only when the client pair is too long
/// to encode.
pub fn post(credentials: &Credentials) -> (request: Result<Request, Failure>)
    ensures
        match request {
            Ok(request) => {
                &&& encodable(client_pair(credentials.client_id@, credentials.client_secret@))
                &&& request@ == token_request(
                    credentials.client_id@,
                    credentials.client_secret@,
                    credentials.refresh_token@,
                )
            },
            Err(failure) => {
                &&& !encodable(client_pair(credentials.client_id@, credentials.client_secret@))
                &&& failure@ == (FailureView::AuthFailure { cause: too_long() })
            },
        },
{
    let mut pair = credentials.client_id.clone();
    pair.append(":");
    pair.append(credentials.client_secret.as_str());
    if pair.as_str().as_bytes().len() > usize::MAX / 4 {
        return Err(Failure::auth("client credentials are too long to encode"));
    }
    let encoded = encode(pair.as_str());
    let value = authorization(encoded.as_str());
    Ok(request_with(value.as_str(), credentials.refresh_token.as_str()))
}

/// What the exchange yields: the token on success, the failed exchange
/// with its cause otherwise.
pub fn access_token(exchanged: Result<String, String>) -> (token: Result<String, Failure>)
    ensures
        match (exchanged, token) {
            (Ok(sent), Ok(token)) => token == sent,
            (Err(cause), Err(failure)) => failure@ == (FailureView::AuthFailure { cause: cause@ }),
            _ => false,
        },
{
    match exchanged {
        Ok(token) => Ok(token),
        Err(cause) => Err(Failure::auth(cause.as_str())),
    }
}

} // verus!
