//! The responses that the service gives.

use vstd::prelude::*;

verus! {

/// Status of a request that was carried out.
pub const OK: u16 = 200;

/// Status of a request whose form was refused.
pub const BAD_REQUEST: u16 = 400;

/// Status of a request that no route matches.
pub const NOT_FOUND: u16 = 404;

/// Status of a request that the store did not take.
pub const INTERNAL_SERVER_ERROR: u16 = 500;

/// A response as a status and a sequence of body bytes.
pub struct ResponseView {
    pub status: u16,
    pub body: Seq<u8>,
}

/// An HTTP response: a status code and a body.
#[derive(Debug, PartialEq, Eq)]
pub struct Response {
    pub status: u16,
    pub body: Vec<u8>,
}

impl View for Response {
    type V = ResponseView;

    open spec fn view(&self) -> ResponseView {
        ResponseView { status: self.status, body: self.body@ }
    }
}

impl Response {
    /// The response with the given status and no body.
    pub open spec fn bare(status: u16) -> ResponseView {
        ResponseView { status, body: Seq::empty() }
    }

    /// A response with the given status and a zero-length body.
    pub fn empty(status: u16) -> (r: Response)
        ensures
            r@ == Response::bare(status),
    {
        Response { status, body: Vec::new() }
    }

    /// Whether the status is in the 2xx range.
    pub fn is_success(&self) -> (yes: bool)
        ensures
            yes == (200 <= self@.status < 300),
    {
        200 <= self.status && self.status < 300
    }

    /// The length of the body in bytes.
    pub fn content_length(&self) -> (n: usize)
        ensures
            n == self@.body.len(),
    {
        self.body.len()
    }
}

} // verus!
