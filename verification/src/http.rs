//! Status codes and the replies of the endpoints.

use vstd::prelude::*;

verus! {

pub const OK: u16 = 200;

pub const CREATED: u16 = 201;

pub const BAD_REQUEST: u16 = 400;

pub const NOT_FOUND: u16 = 404;

pub const CONFLICT: u16 = 409;

pub const INTERNAL_SERVER_ERROR: u16 = 500;

pub const BAD_GATEWAY: u16 = 502;

pub const SERVICE_UNAVAILABLE: u16 = 503;

/// A status that means the body holds the answer.
pub open spec fn is_success(status: u16) -> bool {
    200 <= status < 300
}

pub fn success(status: u16) -> (r: bool)
    ensures
        r == is_success(status),
{
    200 <= status && status < 300
}

/// An error as every endpoint reports it, `{"error": message}` with a status.
#[derive(Debug)]
pub struct ErrorReply {
    pub status: u16,
    pub message: String,
}

impl ErrorReply {
    pub open spec fn says(self, status: u16, message: Seq<char>) -> bool {
        self.status == status && self.message@ == message
    }
}

/// What an endpoint answers.
#[derive(Debug)]
pub enum Reply<T> {
    Error(ErrorReply),
    Body { status: u16, body: T },
}

impl<T> Reply<T> {
    pub open spec fn is_error(self, status: u16, message: Seq<char>) -> bool {
        self matches Reply::Error(e) && e.says(status, message)
    }
}

} // verus!
