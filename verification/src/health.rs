//! `GET /health` and `GET /health/db`.

use vstd::prelude::*;

use crate::http::{INTERNAL_SERVER_ERROR, OK};

verus! {

/// What `GET /health` answers while the server runs.
pub fn health() -> (r: &'static str)
    ensures
        r@ == "ok"@,
{
    "ok"
}

/// What `GET /health/db` answers: `{"status": "ok", "user_count": n}` or
/// `{"status": "error", "message": m}`.
#[derive(Debug)]
pub enum DbHealth {
    Up { user_count: i64 },
    Down { message: String },
}

impl DbHealth {
    /// Judges the database by what counting the users brought.
    pub fn of(count: Result<i64, String>) -> (r: Self)
        ensures
            r == match count {
                Ok(user_count) => DbHealth::Up { user_count },
                Err(message) => DbHealth::Down { message },
            },
    {
        match count {
            Ok(user_count) => DbHealth::Up { user_count },
            Err(message) => DbHealth::Down { message },
        }
    }

    /// The status code of the answer.
    pub fn status_code(&self) -> (r: u16)
        ensures
            r == if self is Up {
                OK
            } else {
                INTERNAL_SERVER_ERROR
            },
    {
        match self {
            DbHealth::Up { .. } => OK,
            DbHealth::Down { .. } => INTERNAL_SERVER_ERROR,
        }
    }

    /// The `status` field of the answer.
    pub fn status(&self) -> (r: &'static str)
        ensures
            r@ == if self is Up {
                "ok"@
            } else {
                "error"@
            },
    {
        match self {
            DbHealth::Up { .. } => "ok",
            DbHealth::Down { .. } => "error",
        }
    }
}

} // verus!
