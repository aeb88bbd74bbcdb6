//! Laws of the review queue.

use vstd::prelude::*;

use crate::handlers::due::{
    due_reply, plan_query, DueCardOut, DueCardRow, DuePlan, DueQuery, DueResponse,
};
use crate::http::{ErrorReply, Reply};
use crate::laws;

verus! {

/// The card carries the fields of its row, each in its own place, and it is new
/// exactly where it was never scheduled.
pub open spec fn shows<F>(card: DueCardOut<F>, row: DueCardRow<F>) -> bool {
    &&& card.card_id == row.card_id
    &&& card.set_id == row.set_id
    &&& card.question == row.question
    &&& card.answer == row.answer
    &&& card.stability == row.stability
    &&& card.difficulty == row.difficulty
    &&& card.next_review_at == row.next_review_at
    &&& card.is_new <==> row.next_review_at is None
}

/// A card of the queue shows its row.
pub proof fn law_a_card_shows_its_row<F>(row: DueCardRow<F>, card: DueCardOut<F>)
    requires
        call_ensures(<DueCardOut<F> as From<DueCardRow<F>>>::from, (row,), card),
    ensures
        shows(card, row),
{
}

/// The queue of the named user is read, at least one card of it and at most
/// 100: as many as asked for within these bounds, and 20 where no number is
/// named. A query without a user is refused.
pub proof fn law_a_query_is_planned_within_bounds(
    query: &DueQuery,
    r: Result<DuePlan, ErrorReply>,
)
    requires
        call_ensures(plan_query, (query,), r),
    ensures
        r is Ok <==> query.user_id is Some,
        r matches Err(e) ==> e.status == 400 && e.message@
            == "user_id query parameter is required"@,
        r matches Ok(plan) ==> {
            &&& query.user_id == Some(plan.user_id)
            &&& 1 <= plan.limit <= 100
            &&& query.limit is None ==> plan.limit == 20
            &&& query.limit matches Some(n) ==> (1 <= n <= 100 ==> plan.limit == n) && (n < 1
                ==> plan.limit == 1) && (n > 100 ==> plan.limit == 100)
        },
{
}

/// Every row is sent, in its own place and as it is, and counted.
pub proof fn law_the_queue_is_sent_as_it_came<F>(
    rows: Result<Vec<DueCardRow<F>>, String>,
    i: int,
    r: Reply<DueResponse<F>>,
)
    requires
        call_ensures(due_reply::<F>, (rows,), r),
    ensures
        rows matches Ok(rows) ==> (r matches Reply::Body { status, body } && status == 200
            && body.due_cards@.len() == rows@.len() && (rows@.len() <= i64::MAX ==> body.count
            == rows@.len()) && (0 <= i < rows@.len() ==> shows(body.due_cards@[i], rows@[i]))),
        rows matches Err(text) ==> laws::refused(r, 500, "database error: "@ + text@),
{
}

} // verus!
