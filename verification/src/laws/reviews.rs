//! Laws of reviews and of the time between them.

use vstd::prelude::*;

use crate::handlers::reviews;
use crate::handlers::reviews::{
    event_reply, parse_rating, rating_for, CardState, EventInsertion, InsertedEventRow,
    NewCardStates, PriorEventRow, Rating, Review, ReviewRequest, ReviewResponse, Schedule,
};
use crate::handlers::DbError;
use crate::http::{ErrorReply, Reply};
use crate::laws;
use crate::time::Timestamp;

verus! {

/// The nanoseconds of a day.
pub open spec fn day() -> int {
    86_400_000_000_000
}

/// A point in time outside a leap second.
pub open spec fn regular(t: Timestamp) -> bool {
    t.nanos() < 1_000_000_000
}

/// The nanoseconds from one regular point to another.
pub open spec fn between(a: Timestamp, b: Timestamp) -> int {
    (b.secs() - a.secs()) * 1_000_000_000 + (b.nanos() - a.nanos())
}

/// A timestamp gives back the parts it was made of.
pub proof fn law_a_timestamp_keeps_its_parts(
    secs: i64,
    nanos: u32,
    r: Option<Timestamp>,
    parts: (i64, u32),
)
    requires
        call_ensures(Timestamp::new, (secs, nanos), r),
        r matches Some(t) ==> call_ensures(Timestamp::parts, (&t,), parts),
    ensures
        r is Some ==> parts.0 == secs && parts.1 == nanos,
        r matches Some(t) ==> t.secs() == secs && t.nanos() == nanos,
        -8_334_601_228_800 <= secs <= 8_210_266_876_799 && nanos < 1_000_000_000 ==> r is Some,
        r is Some ==> -8_334_601_228_800 <= secs <= 8_210_266_876_799 && nanos < 2_000_000_000,
        r is Some && nanos >= 1_000_000_000 ==> secs as int % 60 == 59,
{
}

/// Between regular points the span is what the clock shows.
pub proof fn law_a_regular_span_is_what_the_clock_shows(a: Timestamp, b: Timestamp)
    requires
        regular(a),
        regular(b),
    ensures
        a.until(b) == between(a, b),
{
}

/// The days from one point to a later one are the whole days of the span
/// between them, and backwards the same number counts down.
pub proof fn law_days_are_whole_days(a: &Timestamp, b: &Timestamp, r: i64)
    requires
        call_ensures(Timestamp::days_until, (a, b), r),
    ensures
        a.until(*b) >= 0 ==> r >= 0 && r * day() <= a.until(*b) < (r + 1) * day(),
        a.until(*b) <= 0 ==> r <= 0 && -r * day() <= -a.until(*b) < (1 - r) * day(),
{
}

/// There and back takes the same number of days.
pub proof fn law_there_and_back(a: &Timestamp, b: &Timestamp, r: i64, s: i64)
    requires
        call_ensures(Timestamp::days_until, (a, b), r),
        call_ensures(Timestamp::days_until, (b, a), s),
        regular(*a),
        regular(*b),
    ensures
        r == -s,
{
}

/// A review is correct exactly where the card was not forgotten.
pub proof fn law_only_again_is_incorrect(rating: &Rating, r: bool)
    requires
        call_ensures(Rating::is_correct, (rating,), r),
    ensures
        r <==> (*rating is Hard || *rating is Good || *rating is Easy),
        !r <==> *rating is Again,
{
}

/// A rating is read from its own name and from no other.
pub proof fn law_a_rating_has_its_name(name: &str, r: Result<Rating, ()>)
    requires
        call_ensures(rating_for, (name,), r),
    ensures
        name@ == "again"@ <==> (r matches Ok(rating) && rating is Again),
        name@ == "hard"@ <==> (r matches Ok(rating) && rating is Hard),
        name@ == "good"@ <==> (r matches Ok(rating) && rating is Good),
        name@ == "easy"@ <==> (r matches Ok(rating) && rating is Easy),
{
    reveal_strlit("again");
    reveal_strlit("hard");
    reveal_strlit("good");
    reveal_strlit("easy");
    assert("again"@.len() == 5 && "hard"@.len() == 4 && "good"@.len() == 4 && "easy"@.len() == 4);
    assert("hard"@[0] == 'h' && "good"@[0] == 'g' && "easy"@[0] == 'e');
}

/// Two letters that differ in their case at most.
pub open spec fn alike(a: char, b: char) -> bool {
    ||| a == b
    ||| ('A' <= a && a <= 'Z' && b as int == a as int + 32)
}

/// Two texts, the second in lower case, that differ in their case at most.
pub open spec fn written_as(written: Seq<char>, name: Seq<char>) -> bool {
    &&& written.len() == name.len()
    &&& forall|i: int| 0 <= i < name.len() ==> alike(#[trigger] written[i], name[i])
    &&& forall|i: int| 0 <= i < name.len() ==> 'a' <= #[trigger] name[i] && name[i] <= 'z'
}

proof fn lemma_lowercase(written: Seq<char>, name: Seq<char>)
    requires
        written_as(written, name),
    ensures
        vstd::utf8::is_ascii_chars(written),
        reviews::ascii_lowercase(written) == name,
{
    assert forall|i: int| 0 <= i < written.len() implies '\0' <= #[trigger] written[i]
        <= '\u{7f}' by {
        assert(alike(written[i], name[i]));
        assert('a' <= name[i] && name[i] <= 'z');
    }
    assert forall|i: int| 0 <= i < written.len() implies reviews::ascii_lower(
        #[trigger] written[i],
    ) == name[i] by {
        assert(alike(written[i], name[i]));
        assert('a' <= name[i] && name[i] <= 'z');
    }
    assert(reviews::ascii_lowercase(written) =~= name);
}

proof fn lemma_only_its_cases(written: Seq<char>, name: Seq<char>)
    requires
        reviews::ascii_lowercase(written) == name,
        forall|i: int| 0 <= i < name.len() ==> 'a' <= #[trigger] name[i] && name[i] <= 'z',
    ensures
        written_as(written, name),
{
    assert(written.len() == name.len());
    assert forall|i: int| 0 <= i < name.len() implies alike(#[trigger] written[i], name[i]) by {
        assert(reviews::ascii_lowercase(written)[i] == reviews::ascii_lower(written[i]));
    }
}

proof fn lemma_names()
    ensures
        forall|i: int| 0 <= i < 5 ==> 'a' <= #[trigger] "again"@[i] && "again"@[i] <= 'z',
        forall|i: int| 0 <= i < 4 ==> 'a' <= #[trigger] "hard"@[i] && "hard"@[i] <= 'z',
        forall|i: int| 0 <= i < 4 ==> 'a' <= #[trigger] "good"@[i] && "good"@[i] <= 'z',
        forall|i: int| 0 <= i < 4 ==> 'a' <= #[trigger] "easy"@[i] && "easy"@[i] <= 'z',
        "again"@.len() == 5 && "hard"@.len() == 4 && "good"@.len() == 4 && "easy"@.len() == 4,
        "hard"@ != "good"@ && "hard"@ != "easy"@ && "good"@ != "easy"@,
        "again"@ != "hard"@ && "again"@ != "good"@ && "again"@ != "easy"@,
{
    reveal_strlit("again");
    reveal_strlit("hard");
    reveal_strlit("good");
    reveal_strlit("easy");
    assert("hard"@[0] == 'h' && "good"@[0] == 'g' && "easy"@[0] == 'e');
    assert("again"@[0] == 'a' && "again"@[1] == 'g' && "again"@[2] == 'a' && "again"@[3] == 'i'
        && "again"@[4] == 'n');
    assert("hard"@[1] == 'a' && "hard"@[2] == 'r' && "hard"@[3] == 'd');
    assert("good"@[1] == 'o' && "good"@[2] == 'o' && "good"@[3] == 'd');
    assert("easy"@[1] == 'a' && "easy"@[2] == 's' && "easy"@[3] == 'y');
}

/// What an ASCII text is read as: each rating from its name in whatever case,
/// and nothing from any other text.
pub open spec fn reads_as(s: Seq<char>, r: Result<Rating, ()>) -> bool {
    &&& written_as(s, "again"@) <==> (r matches Ok(rating) && rating is Again)
    &&& written_as(s, "hard"@) <==> (r matches Ok(rating) && rating is Hard)
    &&& written_as(s, "good"@) <==> (r matches Ok(rating) && rating is Good)
    &&& written_as(s, "easy"@) <==> (r matches Ok(rating) && rating is Easy)
}

proof fn lemma_reads_as(s: Seq<char>)
    requires
        vstd::utf8::is_ascii_chars(s),
    ensures
        reads_as(s, reviews::rating_named(reviews::ascii_lowercase(s))),
{
    lemma_names();
    let low = reviews::ascii_lowercase(s);
    if written_as(s, "again"@) {
        lemma_lowercase(s, "again"@);
    }
    if written_as(s, "hard"@) {
        lemma_lowercase(s, "hard"@);
    }
    if written_as(s, "good"@) {
        lemma_lowercase(s, "good"@);
    }
    if written_as(s, "easy"@) {
        lemma_lowercase(s, "easy"@);
    }
    if low == "again"@ {
        lemma_only_its_cases(s, "again"@);
    } else if low == "hard"@ {
        lemma_only_its_cases(s, "hard"@);
    } else if low == "good"@ {
        lemma_only_its_cases(s, "good"@);
    } else if low == "easy"@ {
        lemma_only_its_cases(s, "easy"@);
    }
}

/// A rating is read from its name in whatever case, and from no other text.
pub proof fn law_a_rating_is_read_whatever_its_case(s: &str, r: Result<Rating, ()>)
    requires
        call_ensures(parse_rating, (s,), r),
        vstd::utf8::is_ascii_chars(s@),
    ensures
        reads_as(s@, r),
{
    lemma_reads_as(s@);
}

/// A request goes on, for its own card and user, with the rating that it names;
/// one that names none is refused and quoted.
pub proof fn law_a_review_keeps_its_rating(request: ReviewRequest, r: Result<Review, ErrorReply>)
    requires
        call_ensures(ReviewRequest::rated, (request,), r),
    ensures
        r matches Ok(review) ==> review.card_id == request.card_id && review.user_id
            == request.user_id,
        r matches Ok(review) ==> (vstd::utf8::is_ascii_chars(request.rating@) ==> reads_as(
            request.rating@,
            Ok::<Rating, ()>(review.rating),
        )),
        r matches Err(e) ==> e.status == 400 && e.message@ == "invalid rating '"@
            + request.rating@ + "': must be one of again, hard, good, easy"@,
        r is Err ==> (vstd::utf8::is_ascii_chars(request.rating@) ==> reads_as(
            request.rating@,
            Err::<Rating, ()>(()),
        )),
{
    if vstd::utf8::is_ascii_chars(request.rating@) {
        lemma_reads_as(request.rating@);
    }
}

/// The rating picks its own state of a new card.
pub proof fn law_a_rating_picks_its_state<F>(
    states: NewCardStates<F>,
    rating: Rating,
    r: CardState<F>,
)
    requires
        call_ensures(NewCardStates::<F>::pick, (states, rating), r),
    ensures
        rating is Again ==> r == states.again,
        rating is Hard ==> r == states.hard,
        rating is Good ==> r == states.good,
        rating is Easy ==> r == states.easy,
{
}

/// A card is followed up exactly where its last review left a whole state, from
/// that state and that time; any other card starts anew.
pub proof fn law_a_card_goes_on_from_its_last_state<F>(
    review: &Review,
    now: Timestamp,
    lookup: Result<Option<PriorEventRow<F>>, String>,
    r: Result<Schedule<F>, ErrorReply>,
)
    requires
        call_ensures(Review::prior_found::<F>, (review, now, lookup), r),
    ensures
        r is Ok <==> lookup is Ok,
        lookup matches Err(text) ==> (r matches Err(e) && e.status == 500 && e.message@
            == "database error looking up prior state: "@ + text@),
        r matches Ok(Schedule::FollowUp(state)) ==> (lookup matches Ok(Some(prior))
            && prior.stability == Some(state.stability) && prior.difficulty == Some(
            state.difficulty,
        ) && state.last_review == Some(prior.created_at) && state.due == now),
        lookup matches Ok(None) ==> (r matches Ok(plan) && plan is New),
        lookup matches Ok(Some(prior)) ==> (r matches Ok(plan) && (plan is New
            <==> prior.stability is None || prior.difficulty is None)),
{
}

/// The row that records a review: it is about the reviewed card and the
/// reviewing user, it is marked incorrect exactly where the card was forgotten,
/// and it keeps the card's new state. Its interval is the whole days until the
/// card is due, and at least one.
pub open spec fn records<F>(
    review: Review,
    now: Timestamp,
    state: CardState<F>,
    row: EventInsertion<F>,
) -> bool {
    &&& row.card_id == review.card_id
    &&& row.user_id == review.user_id
    &&& !row.is_correct <==> review.rating is Again
    &&& row.stability == state.stability
    &&& row.difficulty == state.difficulty
    &&& row.next_review_at == state.due
    &&& row.interval >= 1
    &&& {
        let wait = now.until(state.due);
        &&& wait < 2 * day() ==> row.interval == 1
        &&& wait >= day() ==> row.interval * day() <= wait < (row.interval + 1) * day()
    }
}

/// A review is recorded as it was rated.
pub proof fn law_a_review_is_recorded_as_rated<F>(
    review: &Review,
    now: Timestamp,
    state: CardState<F>,
    r: EventInsertion<F>,
)
    requires
        call_ensures(Review::event::<F>, (review, now, state), r),
    ensures
        records(*review, now, state, r),
{
}

/// The scheduler's answer to a follow-up is what is recorded, and its failure
/// is told.
pub proof fn law_a_follow_up_is_recorded<F, T>(
    review: &Review,
    now: Timestamp,
    state: Result<CardState<F>, String>,
    r: Result<EventInsertion<F>, Reply<T>>,
)
    requires
        call_ensures(Review::rescheduled::<F, T>, (review, now, state), r),
    ensures
        state matches Ok(state) ==> (r matches Ok(row) && records(*review, now, state, row)),
        state matches Err(text) ==> (r matches Err(e) && laws::refused(
            e,
            500,
            "scheduler error: "@ + text@,
        )),
{
}

/// The scheduler's states of a new card: that of the rating is recorded.
pub proof fn law_a_first_review_is_recorded<F, T>(
    review: &Review,
    now: Timestamp,
    states: Result<NewCardStates<F>, String>,
    r: Result<EventInsertion<F>, Reply<T>>,
)
    requires
        call_ensures(Review::scheduled::<F, T>, (review, now, states), r),
    ensures
        states matches Ok(states) ==> (r matches Ok(row) && {
            &&& review.rating is Again ==> records(*review, now, states.again, row)
            &&& review.rating is Hard ==> records(*review, now, states.hard, row)
            &&& review.rating is Good ==> records(*review, now, states.good, row)
            &&& review.rating is Easy ==> records(*review, now, states.easy, row)
        }),
        states matches Err(text) ==> (r matches Err(e) && laws::refused(
            e,
            500,
            "scheduler error: "@ + text@,
        )),
{
}

/// What was stored is what is reported, each value in its own place.
pub proof fn law_a_review_is_reported_as_stored<F: Copy>(
    row: Result<InsertedEventRow<F>, DbError>,
    zero: F,
    r: Reply<ReviewResponse<F>>,
)
    requires
        call_ensures(event_reply::<F>, (row, zero), r),
    ensures
        row matches Ok(row) ==> (r matches Reply::Body { status, body } && status == 201
            && body.learning_event_id == row.id && body.interval_days == row.interval
            && body.next_review_at == row.next_review_at && (row.stability matches Some(s)
            ==> body.stability == s) && (row.stability is None ==> body.stability == zero) && (
        row.difficulty matches Some(d) ==> body.difficulty == d) && (row.difficulty is None
            ==> body.difficulty == zero)),
        row is Err ==> r is Error,
{
}

/// A review that could not be stored is told as any database error is.
pub proof fn law_a_refused_review_is_classified<F: Copy>(
    error: DbError,
    zero: F,
    told: (u16, String),
    r: Reply<ReviewResponse<F>>,
)
    requires
        call_ensures(event_reply::<F>, (Err::<InsertedEventRow<F>, DbError>(error), zero), r),
        call_ensures(crate::handlers::classify_db_error, (&error,), told),
    ensures
        laws::refused(r, told.0, told.1@),
{
}

} // verus!
