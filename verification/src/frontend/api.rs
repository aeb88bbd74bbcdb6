//! How the client talks to the server.

use vstd::prelude::*;

use crate::http;
use crate::text;
use crate::text::{cat2, cat4, decimal_text};

verus! {

/// Where the server is.
pub const API_BASE: &'static str = "http://localhost:8081";

/// Why a request brought nothing.
#[derive(Debug)]
pub enum ApiFailure {
    /// The request body could not be written.
    Serialize(String),
    /// The request could not be built.
    Body(String),
    /// The request did not get through.
    Network(String),
    /// The server refused a read.
    Refused { status: u16 },
    /// The server refused a write and said why.
    RefusedWith { status: u16, text: String },
    /// The answer could not be read.
    Parse(String),
}

impl ApiFailure {
    /// How the failure reads on the screen.
    pub open spec fn text(self) -> Seq<char> {
        match self {
            ApiFailure::Serialize(e) => "serialize: "@ + e@,
            ApiFailure::Body(e) => "body error: "@ + e@,
            ApiFailure::Network(e) => "network error: "@ + e@,
            ApiFailure::Refused { status } => "HTTP "@ + text::decimal(status as nat),
            ApiFailure::RefusedWith { status, text } => "HTTP "@ + text::decimal(status as nat)
                + ": "@ + text@,
            ApiFailure::Parse(e) => "parse error: "@ + e@,
        }
    }

    pub fn describe(&self) -> (r: String)
        ensures
            r@ == self.text(),
    {
        match self {
            ApiFailure::Serialize(e) => cat2("serialize: ", e.as_str()),
            ApiFailure::Body(e) => cat2("body error: ", e.as_str()),
            ApiFailure::Network(e) => cat2("network error: ", e.as_str()),
            ApiFailure::Refused { status } => cat2(
                "HTTP ",
                decimal_text(*status as u64).as_str(),
            ),
            ApiFailure::RefusedWith { status, text } => cat4(
                "HTTP ",
                decimal_text(*status as u64).as_str(),
                ": ",
                text.as_str(),
            ),
            ApiFailure::Parse(e) => cat2("parse error: ", e.as_str()),
        }
    }
}

/// The address of a path on the server.
pub fn api_url(path: &str) -> (r: String)
    ensures
        r@ == API_BASE@ + path@,
{
    cat2(API_BASE, path)
}

/// Whether a read was answered.
pub fn check_get(status: u16) -> (r: Result<(), ApiFailure>)
    ensures
        r == if http::is_success(status) {
            Ok::<(), ApiFailure>(())
        } else {
            Err::<(), ApiFailure>((ApiFailure::Refused { status }))
        },
{
    if http::success(status) {
        Ok(())
    } else {
        Err(ApiFailure::Refused { status })
    }
}

/// Whether a write was answered; `text` is the body of a refusal.
pub fn check_post(status: u16, text: String) -> (r: Result<(), ApiFailure>)
    ensures
        r == if http::is_success(status) {
            Ok::<(), ApiFailure>(())
        } else {
            Err::<(), ApiFailure>((ApiFailure::RefusedWith { status, text }))
        },
{
    if http::success(status) {
        Ok(())
    } else {
        Err(ApiFailure::RefusedWith { status, text })
    }
}

} // verus!
