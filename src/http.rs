//! Responses as plain values: a status code and a body.
use vstd::prelude::*;

verus! {

/// Status of a request that was handled.
pub const STATUS_OK: u16 = 200;

/// Status of a request whose form could not be decoded.
pub const STATUS_BAD_REQUEST: u16 = 400;

/// Status of a request that matched no route.
pub const STATUS_NOT_FOUND: u16 = 404;

/// Status of a request whose path is known but whose method is not.
pub const STATUS_METHOD_NOT_ALLOWED: u16 = 405;

/// Status of a request that failed on the server's side.
pub const STATUS_INTERNAL_SERVER_ERROR: u16 = 500;

/// The methods that the service tells apart.
#[derive(Clone, Copy, Debug, PartialEq, Eq, Structural)]
pub enum Method {
    Get,
    Post,
    Other,
}

/// An HTTP response: its status code and its body.
#[derive(Debug)]
pub struct Response {
    pub status: u16,
    pub body: Vec<u8>,
}

impl Response {
    /// A response with the given status and an empty body.
    pub fn empty(status: u16) -> (r: Response)
        ensures
            r.status == status,
            r.body@.len() == 0,
    {
        Response { status, body: Vec::new() }
    }

    /// True when the status is in the 2xx range.
    pub fn is_success(&self) -> (r: bool)
        ensures
            r == (200 <= self.status < 300),
    {
        200 <= self.status && self.status < 300
    }

    /// The length of the body, as a `Content-Length` header would carry it.
    pub fn content_length(&self) -> (r: usize)
        ensures
            r == self.body@.len(),
    {
        self.body.len()
    }
}

} // verus!
