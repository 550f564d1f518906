//! What goes over the wire: one request, one response.
//!
//! The client does no I/O of its own. It hands each request to a transport,
//! a function supplied by the caller, and decides on what comes back.
use vstd::prelude::*;
use crate::text::opt_view;

verus! {

/// The HTTP methods that the client uses.
#[derive(Debug, Clone, Copy, PartialEq, Eq, Structural)]
pub enum Method {
    Get,
    Put,
    Delete,
}

/// A request for the transport to send.
#[derive(Debug, Clone, PartialEq, Eq)]
pub struct Request {
    /// The HTTP method.
    pub method: Method,
    /// The absolute URL.
    pub url: String,
    /// The value of the `Content-Type` header, the one header that is set.
    pub content_type: String,
    /// The body, where the request has one.
    pub body: Option<String>,
}

/// The mathematical model of a [`Request`].
pub struct RequestView {
    pub method: Method,
    pub url: Seq<char>,
    pub content_type: Seq<char>,
    pub body: Option<Seq<char>>,
}

impl View for Request {
    type V = RequestView;

    open spec fn view(&self) -> RequestView {
        RequestView {
            method: self.method,
            url: self.url@,
            content_type: self.content_type@,
            body: opt_view(self.body),
        }
    }
}

/// A response that the transport obtained.
#[derive(Debug, Clone, PartialEq, Eq)]
pub struct Response {
    /// The HTTP status code.
    pub status: u16,
    /// The bytes of the body.
    pub body: Vec<u8>,
}

/// The mathematical model of a [`Response`].
pub struct ResponseView {
    pub status: u16,
    pub body: Seq<u8>,
}

impl View for Response {
    type V = ResponseView;

    open spec fn view(&self) -> ResponseView {
        ResponseView { status: self.status, body: self.body@ }
    }
}

/// What a transport answers: a response, or the description of why there is
/// none.
pub type Reply = Result<ResponseView, Seq<char>>;

/// The content type that every request advertises.
pub open spec fn json_content_type() -> Seq<char> {
    "application/json"@
}

/// A request without a body.
pub open spec fn bare_request(method: Method, url: Seq<char>) -> RequestView {
    RequestView { method, url, content_type: json_content_type(), body: None }
}

/// A request that carries `body`.
pub open spec fn body_request(method: Method, url: Seq<char>, body: Seq<char>) -> RequestView {
    RequestView { method, url, content_type: json_content_type(), body: Some(body) }
}

impl Request {
    /// A request without a body.
    pub fn new(method: Method, url: String) -> (r: Request)
        ensures
            r@ == bare_request(method, url@),
    {
        Request { method, url, content_type: "application/json".to_owned(), body: None }
    }

    /// A request that carries `body`.
    pub fn with_body(method: Method, url: String, body: String) -> (r: Request)
        ensures
            r@ == body_request(method, url@, body@),
    {
        Request { method, url, content_type: "application/json".to_owned(), body: Some(body) }
    }
}

} // verus!
