//! `GET /due`: the review queue of a user.
//!
//! A card is due where it was never reviewed or where its next review is not
//! in the future. The queue comes from the database in order: cards without a
//! review first, then the most overdue.
//!
//! `F` stands for the number type of the scheduling state, which is only
//! carried through here.

use vstd::prelude::*;

use crate::handlers::{error_reply, error_response};
use crate::http::{ErrorReply, Reply, BAD_REQUEST, INTERNAL_SERVER_ERROR, OK};
use crate::ids::RecordId;
use crate::text::cat2;
use crate::time::Timestamp;

verus! {

/// Cards returned where the query names no limit.
pub const DEFAULT_LIMIT: i64 = 20;

/// Cards returned at most.
pub const MAX_LIMIT: i64 = 100;

#[derive(Debug)]
pub struct DueQuery {
    pub user_id: Option<RecordId>,
    pub limit: Option<i64>,
}

/// Whose queue to read, and how much of it.
#[derive(Debug)]
pub struct DuePlan {
    pub user_id: RecordId,
    pub limit: i64,
}

/// A row of the queue. A card that was never reviewed has no scheduling state.
#[derive(Debug)]
pub struct DueCardRow<F> {
    pub card_id: RecordId,
    pub set_id: RecordId,
    pub question: String,
    pub answer: String,
    pub stability: Option<F>,
    pub difficulty: Option<F>,
    pub next_review_at: Option<Timestamp>,
}

/// A card of the queue as it is sent.
#[derive(Debug)]
pub struct DueCardOut<F> {
    pub card_id: RecordId,
    pub set_id: RecordId,
    pub question: String,
    pub answer: String,
    pub is_new: bool,
    pub stability: Option<F>,
    pub difficulty: Option<F>,
    pub next_review_at: Option<Timestamp>,
}

#[derive(Debug)]
pub struct DueResponse<F> {
    pub due_cards: Vec<DueCardOut<F>>,
    pub count: i64,
}

impl<F> From<DueCardRow<F>> for DueCardOut<F> {
    fn from(r: DueCardRow<F>) -> (out: Self) {
        let is_new = r.next_review_at.is_none();
        DueCardOut {
            card_id: r.card_id,
            set_id: r.set_id,
            question: r.question,
            answer: r.answer,
            is_new,
            stability: r.stability,
            difficulty: r.difficulty,
            next_review_at: r.next_review_at,
        }
    }
}

impl<F> vstd::std_specs::convert::FromSpecImpl<DueCardRow<F>> for DueCardOut<F> {
    open spec fn obeys_from_spec() -> bool {
        true
    }

    /// The row as it is, marked as new where it has no next review.
    open spec fn from_spec(r: DueCardRow<F>) -> Self {
        DueCardOut {
            card_id: r.card_id,
            set_id: r.set_id,
            question: r.question,
            answer: r.answer,
            is_new: r.next_review_at is None,
            stability: r.stability,
            difficulty: r.difficulty,
            next_review_at: r.next_review_at,
        }
    }
}

/// The limit that a query comes to.
pub open spec fn limit_of(limit: Option<i64>) -> i64 {
    match limit {
        None => DEFAULT_LIMIT,
        Some(n) => if n < 1 {
            1
        } else if n > MAX_LIMIT {
            MAX_LIMIT
        } else {
            n
        },
    }
}

/// Plans a query. The user is required; the limit is kept within its bounds
/// without complaint.
pub fn plan_query(query: &DueQuery) -> (r: Result<DuePlan, ErrorReply>)
    ensures
        match query.user_id {
            None => r matches Err(e) && e.says(
                BAD_REQUEST,
                "user_id query parameter is required"@,
            ),
            Some(user_id) => r == Ok::<DuePlan, ErrorReply>(
                DuePlan { user_id, limit: limit_of(query.limit) },
            ),
        },
{
    let user_id = match query.user_id {
        Some(user_id) => user_id,
        None => return Err(error_response(BAD_REQUEST, "user_id query parameter is required")),
    };
    let limit: i64 = match query.limit {
        None => DEFAULT_LIMIT,
        Some(n) => if n < 1 {
            1
        } else if n > MAX_LIMIT {
            MAX_LIMIT
        } else {
            n
        },
    };
    Ok(DuePlan { user_id, limit })
}

/// The reply, given the rows that the database brought. Every row is sent, in
/// the order in which it came.
pub fn due_reply<F>(rows: Result<Vec<DueCardRow<F>>, String>) -> (r: Reply<DueResponse<F>>)
    ensures
        match rows {
            Err(text) => r.is_error(INTERNAL_SERVER_ERROR, "database error: "@ + text@),
            Ok(rows) => r matches Reply::Body { status, body } && status == OK
                && body.due_cards@.len() == rows@.len() && body.count == rows@.len() as i64 && (
            forall|i: int|
                0 <= i < rows@.len() ==> #[trigger] body.due_cards@[i] == <DueCardOut<
                    F,
                > as vstd::std_specs::convert::FromSpec<DueCardRow<F>>>::from_spec(rows@[i])),
        },
{
    let rows = match rows {
        Ok(rows) => rows,
        Err(text) => {
            return error_reply(
                INTERNAL_SERVER_ERROR,
                cat2("database error: ", text.as_str()).as_str(),
            );
        },
    };
    let ghost all = rows@;
    let mut due_cards: Vec<DueCardOut<F>> = Vec::new();
    for row in it: rows
        invariant
            it.seq() == all,
            due_cards@.len() == it.index(),
            forall|i: int|
                0 <= i < due_cards@.len() ==> #[trigger] due_cards@[i] == <DueCardOut<
                    F,
                > as vstd::std_specs::convert::FromSpec<DueCardRow<F>>>::from_spec(all[i]),
    {
        due_cards.push(DueCardOut::from(row));
    }
    let count: i64 = due_cards.len() as i64;
    Reply::Body { status: OK, body: DueResponse { due_cards, count } }
}

/// Whatever limit is asked for, at least one card and at most [`MAX_LIMIT`]
/// are; a limit within the bounds is taken as it is.
pub proof fn law_the_limit_is_bounded(limit: Option<i64>)
    ensures
        1 <= limit_of(limit) <= MAX_LIMIT,
        limit matches Some(n) ==> (1 <= n <= MAX_LIMIT ==> limit_of(limit) == n),
{
}

} // verus!
