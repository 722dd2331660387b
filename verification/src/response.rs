//! The answers that the endpoints give, as plain values.

use vstd::prelude::*;
use vstd::string::*;

verus! {

/// Status of a successful answer.
pub const STATUS_OK: u16 = 200;

/// Status of a temporary redirect, which keeps the request's method.
pub const STATUS_TEMPORARY_REDIRECT: u16 = 307;

/// Status of a request that lacks the URL to shorten.
pub const STATUS_BAD_REQUEST: u16 = 400;

/// Status of a lookup that found nothing.
pub const STATUS_NOT_FOUND: u16 = 404;

/// Status when no free short code could be generated.
pub const STATUS_INTERNAL_ERROR: u16 = 500;

/// Status when the store cannot be written.
pub const STATUS_UNAVAILABLE: u16 = 503;

/// An HTTP answer: status, the `Location` header if there is one, and a
/// plain-text body.
#[derive(Debug)]
pub struct Response {
    pub status: u16,
    pub location: Option<String>,
    pub body: String,
}

/// What an answer is, mathematically.
pub struct ResponseView {
    pub status: int,
    pub location: Option<Seq<char>>,
    pub body: Seq<char>,
}

impl View for Response {
    type V = ResponseView;

    open spec fn view(&self) -> ResponseView {
        ResponseView {
            status: self.status as int,
            location: match self.location {
                Some(target) => Some(target@),
                None => None,
            },
            body: self.body@,
        }
    }
}

/// An answer without a `Location` header.
pub open spec fn plain_view(status: int, body: Seq<char>) -> ResponseView {
    ResponseView { status, location: None, body }
}

/// A temporary redirect to `target`, with an empty body.
pub open spec fn redirect_view(target: Seq<char>) -> ResponseView {
    ResponseView {
        status: STATUS_TEMPORARY_REDIRECT as int,
        location: Some(target),
        body: Seq::<char>::empty(),
    }
}

/// The answer to a lookup that found nothing.
pub open spec fn not_found_view() -> ResponseView {
    plain_view(STATUS_NOT_FOUND as int, "URL not found"@)
}

/// The answer when the store cannot be reached or written.
pub open spec fn unavailable_view() -> ResponseView {
    plain_view(STATUS_UNAVAILABLE as int, "Store unavailable"@)
}

/// The answer of the liveness endpoint.
pub open spec fn health_view() -> ResponseView {
    plain_view(STATUS_OK as int, "Hello world!"@)
}

impl Response {
    /// An answer with a plain-text body and no redirect.
    pub fn plain(status: u16, body: String) -> (response: Response)
        ensures
            response@ == plain_view(status as int, body@),
    {
        Response { status, location: None, body }
    }

    /// A temporary redirect to `target`.
    pub fn redirect(target: &str) -> (response: Response)
        ensures
            response@ == redirect_view(target@),
    {
        Response {
            status: STATUS_TEMPORARY_REDIRECT,
            location: Some(String::from_str(target)),
            body: String::new(),
        }
    }

    /// The answer to a lookup that found nothing.
    pub fn not_found() -> (response: Response)
        ensures
            response@ == not_found_view(),
    {
        Response::plain(STATUS_NOT_FOUND, String::from_str("URL not found"))
    }

    /// The answer when the store cannot be reached or written.
    pub fn unavailable() -> (response: Response)
        ensures
            response@ == unavailable_view(),
    {
        Response::plain(STATUS_UNAVAILABLE, String::from_str("Store unavailable"))
    }

    /// Whether this answer sends the client elsewhere.
    pub fn is_redirect(&self) -> (yes: bool)
        ensures
            yes == (self@.status == STATUS_TEMPORARY_REDIRECT),
    {
        self.status == STATUS_TEMPORARY_REDIRECT
    }
}

/// The liveness endpoint's answer: always the same.
pub fn health_response() -> (response: Response)
    ensures
        response@ == health_view(),
{
    Response::plain(STATUS_OK, String::from_str("Hello world!"))
}

} // verus!
