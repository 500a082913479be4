//! The answer a handler gives, before a framework turns it into HTTP.
use vstd::prelude::*;

verus! {

/// Status of a successful request.
pub const STATUS_OK: u16 = 200;

/// Status of a request whose route is unknown.
pub const STATUS_NOT_FOUND: u16 = 404;

/// Status of a request that failed on the server's side.
pub const STATUS_INTERNAL_SERVER_ERROR: u16 = 500;

/// How the body of a response is to be labelled.
#[derive(Clone, Copy, Debug, PartialEq, Eq, Structural)]
pub enum ContentKind {
    /// `text/html`
    Html,
    /// `text/plain`
    PlainText,
}

/// A status code, the kind of its body and the body's text.
#[derive(Clone, Debug)]
pub struct Response {
    pub status: u16,
    pub content: ContentKind,
    pub body: String,
}

impl Response {
    /// A response with the given parts.
    pub fn new(status: u16, content: ContentKind, body: String) -> (r: Response)
        ensures
            r.status == status,
            r.content == content,
            r.body@ == body@,
    {
        Response { status, content, body }
    }
}

} // verus!
