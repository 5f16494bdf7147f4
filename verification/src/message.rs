use vstd::prelude::*;
use crate::headers::Headers;
use crate::method::HttpMethod;

verus! {

/// A request as the transport gets it.
#[derive(Debug)]
pub struct Request {
    pub method: HttpMethod,
    /// The full target.
    pub url: String,
    pub headers: Headers,
    /// The body, already written as text; `None` for a request without one.
    pub body: Option<String>,
}

/// What a `Request` says, apart from how it is stored.
pub struct RequestView {
    pub method: HttpMethod,
    pub url: Seq<char>,
    pub headers: Map<Seq<char>, Seq<char>>,
    pub body: Option<Seq<char>>,
}

impl View for Request {
    type V = RequestView;

    open spec fn view(&self) -> RequestView {
        RequestView {
            method: self.method,
            url: self.url@,
            headers: self.headers@,
            body: match self.body {
                Some(text) => Some(text@),
                None => None,
            },
        }
    }
}

impl Clone for Request {
    fn clone(&self) -> (copy: Self)
        ensures
            copy@ == self@,
    {
        Request {
            method: self.method,
            url: self.url.clone(),
            headers: self.headers.clone(),
            body: match &self.body {
                Some(text) => Some(text.clone()),
                None => None,
            },
        }
    }
}

/// A reply as the transport hands it over, its body read as text.
#[derive(Debug)]
pub struct Response {
    pub status: u16,
    pub headers: Headers,
    pub body: String,
}

/// What a `Response` says, apart from how it is stored.
pub struct ResponseView {
    pub status: u16,
    pub headers: Map<Seq<char>, Seq<char>>,
    pub body: Seq<char>,
}

impl View for Response {
    type V = ResponseView;

    open spec fn view(&self) -> ResponseView {
        ResponseView { status: self.status, headers: self.headers@, body: self.body@ }
    }
}

impl Clone for Response {
    fn clone(&self) -> (copy: Self)
        ensures
            copy@ == self@,
    {
        Response {
            status: self.status,
            headers: self.headers.clone(),
            body: self.body.clone(),
        }
    }
}

} // verus!
