//! Responses as plain values: a status, two optional headers and a body.

use vstd::prelude::*;
use vstd::string::StringExecFns;

verus! {

/// The four statuses that the endpoints answer with.
#[derive(Clone, Copy, Debug, PartialEq, Eq, Structural)]
pub enum Status {
    Success,
    TemporaryRedirect,
    BadRequest,
    Unauthorized,
}

impl Status {
    /// The status as a number.
    pub open spec fn spec_code(self) -> u16 {
        match self {
            Status::Success => 200,
            Status::TemporaryRedirect => 307,
            Status::BadRequest => 400,
            Status::Unauthorized => 401,
        }
    }

    /// The status as the number that goes on the wire.
    pub fn code(&self) -> (n: u16)
        ensures
            n == self.spec_code(),
    {
        match self {
            Status::Success => 200,
            Status::TemporaryRedirect => 307,
            Status::BadRequest => 400,
            Status::Unauthorized => 401,
        }
    }
}

/// What an endpoint hands back to the transport.
#[derive(Clone, Debug, PartialEq, Eq)]
pub struct Response {
    pub status: Status,
    pub content_type: Option<String>,
    pub location: Option<String>,
    pub body: String,
}

/// A response, with its texts as sequences of characters.
pub struct ResponseView {
    pub status: Status,
    pub content_type: Option<Seq<char>>,
    pub location: Option<Seq<char>>,
    pub body: Seq<char>,
}

/// An optional text as an optional sequence of characters.
pub open spec fn text_view(text: Option<String>) -> Option<Seq<char>> {
    match text {
        Some(t) => Some(t@),
        None => None,
    }
}

impl View for Response {
    type V = ResponseView;

    open spec fn view(&self) -> ResponseView {
        ResponseView {
            status: self.status,
            content_type: text_view(self.content_type),
            location: text_view(self.location),
            body: self.body@,
        }
    }
}

/// The content type of every rendered page.
pub open spec fn html_content_type() -> Seq<char> {
    "text/html; charset=utf-8"@
}

/// A page: the given status and body, marked as HTML, with no location.
pub open spec fn html_page(status: Status, body: Seq<char>) -> ResponseView {
    ResponseView {
        status,
        content_type: Some(html_content_type()),
        location: None,
        body,
    }
}

/// A temporary redirect to `target`, with no content type and an empty body.
pub open spec fn redirect_to(target: Seq<char>) -> ResponseView {
    ResponseView {
        status: Status::TemporaryRedirect,
        content_type: None,
        location: Some(target),
        body: Seq::empty(),
    }
}

impl Response {
    /// Builds a page with the given status and body.
    pub fn html(status: Status, body: String) -> (r: Response)
        ensures
            r@ == html_page(status, body@),
    {
        Response {
            status,
            content_type: Some(String::from_str("text/html; charset=utf-8")),
            location: None,
            body,
        }
    }

    /// Builds a temporary redirect to `target`.
    pub fn redirect(target: &str) -> (r: Response)
        ensures
            r@ == redirect_to(target@),
    {
        Response {
            status: Status::TemporaryRedirect,
            content_type: None,
            location: Some(String::from_str(target)),
            body: String::new(),
        }
    }
}

} // verus!
