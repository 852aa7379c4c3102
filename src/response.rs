//! A response, and the status check that a transport's reply must pass to
//! become one.
use vstd::prelude::*;
use crate::error::{Error, ErrorKind};
use crate::headers::Headers;

verus! {

/// Whether a status code reports a client error (4xx) or a server
/// error (5xx).
pub open spec fn is_error_status(status: u16) -> bool {
    400 <= status <= 599
}

/// What a transport hands back for a request, before its status is checked.
#[derive(Debug)]
pub struct Reply {
    pub status: u16,
    pub headers: Headers,
    pub body: Vec<u8>,
}

/// An HTTP response whose status is not an error status.
#[derive(Debug)]
pub struct Response {
    pub status: u16,
    pub headers: Headers,
    pub body: Vec<u8>,
}

impl Response {
    /// Turn a reply into a response; an error status is refused with
    /// `TransportError` and no response is made.
    pub fn from_reply(reply: Reply) -> (r: Result<Response, Error>)
        ensures
            r is Ok <==> !is_error_status(reply.status),
            r matches Ok(res) ==> res.status == reply.status && res.headers == reply.headers
                && res.body == reply.body,
            r matches Err(e) ==> e.kind == ErrorKind::TransportError,
    {
        if 400 <= reply.status && reply.status <= 599 {
            let message = if reply.status < 500 {
                "HTTP status client error"
            } else {
                "HTTP status server error"
            };
            Err(Error::new(ErrorKind::TransportError, message))
        } else {
            let Reply { status, headers, body } = reply;
            Ok(Response { status, headers, body })
        }
    }

    /// The number of bytes of the body.
    pub fn body_len(&self) -> (r: usize)
        ensures
            r == self.body@.len(),
    {
        self.body.len()
    }
}

} // verus!
