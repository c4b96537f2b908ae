//! An HTTP request as plain data. The builders of this crate decide every
//! part of a request; sending it is left to the caller.

use vstd::prelude::*;

verus! {

/// The request methods the service is called with.
#[derive(Clone, Copy, Debug, PartialEq, Eq, Structural)]
pub enum Method {
    Get,
    Post,
    Put,
}

/// A named text value: a header, a query parameter or a form field.
#[derive(Debug, PartialEq, Eq)]
pub struct Pair {
    pub name: String,
    pub value: String,
}

impl View for Pair {
    type V = (Seq<char>, Seq<char>);

    open spec fn view(&self) -> (Seq<char>, Seq<char>) {
        (self.name@, self.value@)
    }
}

impl Pair {
    /// A pair that owns copies of `name` and `value`.
    pub fn new(name: &str, value: &str) -> (pair: Pair)
        ensures
            pair@ == (name@, value@),
    {
        Pair { name: name.to_owned(), value: value.to_owned() }
    }
}

/// What a request carries after its headers.
#[derive(Debug, PartialEq, Eq)]
pub enum Body {
    /// Nothing.
    Empty,
    /// URL-encoded form fields, in order.
    Form(Vec<Pair>),
    /// The JSON object with the single member `ids`, an array of strings.
    Ids(Vec<String>),
    /// The JSON object with the single member `context_uri`, a string.
    ContextUri(String),
}

/// Mathematical value of a [`Body`].
pub enum BodyView {
    Empty,
    Form(Seq<(Seq<char>, Seq<char>)>),
    Ids(Seq<Seq<char>>),
    ContextUri(Seq<char>),
}

/// The pairs of a list, each by its view.
pub open spec fn pairs(list: Seq<Pair>) -> Seq<(Seq<char>, Seq<char>)> {
    Seq::new(list.len(), |i: int| list[i]@)
}

impl View for Body {
    type V = BodyView;

    open spec fn view(&self) -> BodyView {
        match self {
            Body::Empty => BodyView::Empty,
            Body::Form(fields) => BodyView::Form(pairs(fields@)),
            Body::Ids(ids) => BodyView::Ids(crate::text::texts(ids@)),
            Body::ContextUri(uri) => BodyView::ContextUri(uri@),
        }
    }
}

/// A request to send: method, address, credentials, headers, query and body.
#[derive(Debug, PartialEq, Eq)]
pub struct Request {
    pub method: Method,
    pub url: String,
    /// Token for bearer authentication, if the request carries one.
    pub bearer: Option<String>,
    /// Headers set by name, in order.
    pub headers: Vec<Pair>,
    /// Query parameters, in order.
    pub query: Vec<Pair>,
    pub body: Body,
}

/// Mathematical value of a [`Request`].
pub struct RequestView {
    pub method: Method,
    pub url: Seq<char>,
    pub bearer: Option<Seq<char>>,
    pub headers: Seq<(Seq<char>, Seq<char>)>,
    pub query: Seq<(Seq<char>, Seq<char>)>,
    pub body: BodyView,
}

impl View for Request {
    type V = RequestView;

    open spec fn view(&self) -> RequestView {
        RequestView {
            method: self.method,
            url: self.url@,
            bearer: match self.bearer {
                Some(token) => Some(token@),
                None => None,
            },
            headers: pairs(self.headers@),
            query: pairs(self.query@),
            body: self.body@,
        }
    }
}

} // verus!
