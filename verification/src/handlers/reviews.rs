//! `POST /review`: a rating reschedules a card.
//!
//! The turns of the endpoint, in order: [`ReviewRequest::rated`],
//! [`Review::prior_found`] with the last review of the card, the scheduler's
//! answer to [`Review::rescheduled`] or [`Review::scheduled`], and
//! [`event_reply`] with the row that was stored.
//!
//! `F` stands for the number type of the scheduling state, which only the
//! scheduler computes with.

use vstd::prelude::*;

use crate::handlers;
use crate::handlers::{classify_db_error, error_reply, error_response, DbError};
use crate::http::{ErrorReply, Reply, BAD_REQUEST, CREATED, INTERNAL_SERVER_ERROR};
use crate::ids::RecordId;
use crate::text::{cat2, cat3, same_text};
use crate::time;
use crate::time::Timestamp;

verus! {

/// How well a card was remembered.
#[derive(Debug, Clone, Copy, PartialEq, Eq, Structural)]
pub enum Rating {
    Again,
    Hard,
    Good,
    Easy,
}

impl Rating {
    /// The rating's name in a request, in lower case.
    pub open spec fn name(self) -> Seq<char> {
        match self {
            Rating::Again => "again"@,
            Rating::Hard => "hard"@,
            Rating::Good => "good"@,
            Rating::Easy => "easy"@,
        }
    }

    /// Forgotten is wrong, everything else is right.
    pub fn is_correct(&self) -> (r: bool)
        ensures
            r == (*self != Rating::Again),
    {
        *self != Rating::Again
    }
}

#[derive(Debug)]
pub struct ReviewRequest {
    pub card_id: RecordId,
    pub user_id: RecordId,
    pub rating: String,
}

#[derive(Debug)]
pub struct ReviewResponse<F> {
    pub learning_event_id: RecordId,
    pub stability: F,
    pub difficulty: F,
    pub interval_days: i64,
    pub next_review_at: Timestamp,
}

/// The last review of a card by a user. A row from before the scheduler was
/// adopted has no state.
#[derive(Debug)]
pub struct PriorEventRow<F> {
    pub stability: Option<F>,
    pub difficulty: Option<F>,
    pub created_at: Timestamp,
}

/// The row that the database stored for this review.
#[derive(Debug)]
pub struct InsertedEventRow<F> {
    pub id: RecordId,
    pub stability: Option<F>,
    pub difficulty: Option<F>,
    pub interval: i32,
    pub next_review_at: Timestamp,
}

/// The scheduling state of a card.
#[derive(Debug)]
pub struct CardState<F> {
    pub stability: F,
    pub difficulty: F,
    pub due: Timestamp,
    pub last_review: Option<Timestamp>,
}

/// The states that a new card can get, one for each rating.
#[derive(Debug)]
pub struct NewCardStates<F> {
    pub again: CardState<F>,
    pub hard: CardState<F>,
    pub good: CardState<F>,
    pub easy: CardState<F>,
}

impl<F> NewCardStates<F> {
    /// The state for a rating.
    pub open spec fn of(self, rating: Rating) -> CardState<F> {
        match rating {
            Rating::Again => self.again,
            Rating::Hard => self.hard,
            Rating::Good => self.good,
            Rating::Easy => self.easy,
        }
    }

    pub fn pick(self, rating: Rating) -> (r: CardState<F>)
        ensures
            r == self.of(rating),
    {
        match rating {
            Rating::Again => self.again,
            Rating::Hard => self.hard,
            Rating::Good => self.good,
            Rating::Easy => self.easy,
        }
    }
}

/// What the scheduler is asked for.
#[derive(Debug)]
pub enum Schedule<F> {
    /// The states of a card without a scheduling state.
    New,
    /// The next state of a card in this state.
    FollowUp(CardState<F>),
}

/// The row to store for this review.
#[derive(Debug)]
pub struct EventInsertion<F> {
    pub card_id: RecordId,
    pub user_id: RecordId,
    pub is_correct: bool,
    pub stability: F,
    pub difficulty: F,
    pub interval: i32,
    pub next_review_at: Timestamp,
}

/// `s` in lower case, as std's Unicode tables have it.
pub uninterp spec fn lowercase(s: Seq<char>) -> Seq<char>;

/// An ASCII character in lower case.
pub open spec fn ascii_lower(c: char) -> char {
    if 'A' <= c && c <= 'Z' {
        (c as u32 + 32) as char
    } else {
        c
    }
}

/// An ASCII text in lower case.
pub open spec fn ascii_lowercase(s: Seq<char>) -> Seq<char> {
    s.map_values(|c: char| ascii_lower(c))
}

/// `str::to_lowercase` of std: the lower-case form of the text, which is a
/// function of the text alone; of an ASCII text, the letters `A` to `Z` become
/// `a` to `z` and the rest stays.
#[verifier::external_body]
fn to_lowercase(s: &str) -> (r: String)
    ensures
        r@ == lowercase(s@),
        vstd::utf8::is_ascii_chars(s@) ==> r@ == ascii_lowercase(s@),
{
    s.to_lowercase()
}

/// The rating that a lower-case name stands for.
pub open spec fn rating_named(name: Seq<char>) -> Result<Rating, ()> {
    if name == "again"@ {
        Ok(Rating::Again)
    } else if name == "hard"@ {
        Ok(Rating::Hard)
    } else if name == "good"@ {
        Ok(Rating::Good)
    } else if name == "easy"@ {
        Ok(Rating::Easy)
    } else {
        Err(())
    }
}

/// The rating that a lower-case name stands for.
pub fn rating_for(name: &str) -> (r: Result<Rating, ()>)
    ensures
        r == rating_named(name@),
{
    if same_text(name, "again") {
        Ok(Rating::Again)
    } else if same_text(name, "hard") {
        Ok(Rating::Hard)
    } else if same_text(name, "good") {
        Ok(Rating::Good)
    } else if same_text(name, "easy") {
        Ok(Rating::Easy)
    } else {
        Err(())
    }
}

/// Reads a rating in any case; anything but the four names is refused.
pub fn parse_rating(s: &str) -> (r: Result<Rating, ()>)
    ensures
        r == rating_named(lowercase(s@)),
        vstd::utf8::is_ascii_chars(s@) ==> r == rating_named(ascii_lowercase(s@)),
{
    rating_for(to_lowercase(s).as_str())
}

/// A review with a rating; the card's last review is still to be looked up.
#[derive(Debug)]
pub struct Review {
    pub card_id: RecordId,
    pub user_id: RecordId,
    pub rating: Rating,
}

impl ReviewRequest {
    /// What comes of a request whose rating was read as `rating`.
    pub open spec fn rated_of(
        self,
        rating: Result<Rating, ()>,
        r: Result<Review, ErrorReply>,
    ) -> bool {
        match rating {
            Ok(rating) => r == Ok::<Review, ErrorReply>(
                Review { card_id: self.card_id, user_id: self.user_id, rating },
            ),
            Err(()) => r matches Err(e) && e.says(
                BAD_REQUEST,
                "invalid rating '"@ + self.rating@
                    + "': must be one of again, hard, good, easy"@,
            ),
        }
    }

    /// Reads the rating. A bad one is refused, never replaced by a default.
    pub fn rated(self) -> (r: Result<Review, ErrorReply>)
        ensures
            self.rated_of(rating_named(lowercase(self.rating@)), r),
            vstd::utf8::is_ascii_chars(self.rating@) ==> self.rated_of(
                rating_named(ascii_lowercase(self.rating@)),
                r,
            ),
    {
        match parse_rating(self.rating.as_str()) {
            Ok(rating) => Ok(Review { card_id: self.card_id, user_id: self.user_id, rating }),
            Err(()) => Err(
                error_response(
                    BAD_REQUEST,
                    cat3(
                        "invalid rating '",
                        self.rating.as_str(),
                        "': must be one of again, hard, good, easy",
                    ).as_str(),
                ),
            ),
        }
    }
}

/// The days until a card is due again, at least one.
pub open spec fn interval_days(now: Timestamp, due: Timestamp) -> int {
    let days = time::whole_days(now.until(due));
    if days < 1 {
        1
    } else {
        days
    }
}

/// The error reply for a scheduler that failed.
pub open spec fn scheduler_error<T>(reply: Reply<T>, text: Seq<char>) -> bool {
    reply.is_error(INTERNAL_SERVER_ERROR, "scheduler error: "@ + text)
}

impl Review {
    /// The last review of the card came back. A card whose last review left a
    /// state is followed up from it; any other card starts anew.
    pub fn prior_found<F>(
        &self,
        now: Timestamp,
        lookup: Result<Option<PriorEventRow<F>>, String>,
    ) -> (r: Result<Schedule<F>, ErrorReply>)
        ensures
            match lookup {
                Err(text) => r matches Err(e) && e.says(
                    INTERNAL_SERVER_ERROR,
                    "database error looking up prior state: "@ + text@,
                ),
                Ok(Some(PriorEventRow { stability: Some(s), difficulty: Some(d), created_at })) =>
                r == Ok::<Schedule<F>, ErrorReply>(
                    Schedule::FollowUp(
                        CardState {
                            stability: s,
                            difficulty: d,
                            due: now,
                            last_review: Some(created_at),
                        },
                    ),
                ),
                Ok(_) => r == Ok::<Schedule<F>, ErrorReply>(Schedule::New),
            },
    {
        match lookup {
            Err(text) => Err(
                error_response(
                    INTERNAL_SERVER_ERROR,
                    cat2("database error looking up prior state: ", text.as_str()).as_str(),
                ),
            ),
            Ok(Some(PriorEventRow { stability: Some(s), difficulty: Some(d), created_at })) => Ok(
                Schedule::FollowUp(
                    CardState {
                        stability: s,
                        difficulty: d,
                        due: now,
                        last_review: Some(created_at),
                    },
                ),
            ),
            Ok(_) => Ok(Schedule::New),
        }
    }

    /// The row that stores the review, once the card is in `state`.
    pub open spec fn stores<F>(
        self,
        now: Timestamp,
        state: CardState<F>,
        row: EventInsertion<F>,
    ) -> bool {
        &&& row.card_id == self.card_id
        &&& row.user_id == self.user_id
        &&& row.is_correct == (self.rating != Rating::Again)
        &&& row.stability == state.stability
        &&& row.difficulty == state.difficulty
        &&& row.interval == interval_days(now, state.due)
        &&& row.next_review_at == state.due
    }

    /// The row for a card that is now in `state`.
    pub fn event<F>(&self, now: Timestamp, state: CardState<F>) -> (r: EventInsertion<F>)
        ensures
            self.stores(now, state, r),
    {
        let days: i64 = now.days_until(&state.due);
        let interval: i32 = if days < 1 {
            1
        } else {
            days as i32
        };
        EventInsertion {
            card_id: self.card_id,
            user_id: self.user_id,
            is_correct: self.rating.is_correct(),
            stability: state.stability,
            difficulty: state.difficulty,
            interval,
            next_review_at: state.due,
        }
    }

    /// The scheduler followed a card up.
    pub fn rescheduled<F, T>(
        &self,
        now: Timestamp,
        state: Result<CardState<F>, String>,
    ) -> (r: Result<EventInsertion<F>, Reply<T>>)
        ensures
            match state {
                Ok(state) => r matches Ok(row) && self.stores(now, state, row),
                Err(text) => r matches Err(e) && scheduler_error(e, text@),
            },
    {
        match state {
            Ok(state) => Ok(self.event(now, state)),
            Err(text) => Err(
                error_reply(
                    INTERNAL_SERVER_ERROR,
                    cat2("scheduler error: ", text.as_str()).as_str(),
                ),
            ),
        }
    }

    /// The scheduler gave the states of a new card; the rating picks one.
    pub fn scheduled<F, T>(
        &self,
        now: Timestamp,
        states: Result<NewCardStates<F>, String>,
    ) -> (r: Result<EventInsertion<F>, Reply<T>>)
        ensures
            match states {
                Ok(states) => r matches Ok(row) && self.stores(
                    now,
                    states.of(self.rating),
                    row,
                ),
                Err(text) => r matches Err(e) && scheduler_error(e, text@),
            },
    {
        match states {
            Ok(states) => Ok(self.event(now, states.pick(self.rating))),
            Err(text) => Err(
                error_reply(
                    INTERNAL_SERVER_ERROR,
                    cat2("scheduler error: ", text.as_str()).as_str(),
                ),
            ),
        }
    }
}

/// The reply, given the row that the database stored. It reports what was
/// stored; a state that is missing there reads as `zero`.
pub fn event_reply<F: Copy>(row: Result<InsertedEventRow<F>, DbError>, zero: F) -> (r: Reply<
    ReviewResponse<F>,
>)
    ensures
        match row {
            Ok(row) => r == (Reply::Body {
                status: CREATED,
                body: (ReviewResponse {
                    learning_event_id: row.id,
                    stability: row.stability.unwrap_or(zero),
                    difficulty: row.difficulty.unwrap_or(zero),
                    interval_days: row.interval as i64,
                    next_review_at: row.next_review_at,
                }),
            }),
            Err(error) => r.is_error(
                handlers::db_error_status(error),
                handlers::db_error_message(error),
            ),
        },
{
    match row {
        Ok(row) => Reply::Body {
            status: CREATED,
            body: ReviewResponse {
                learning_event_id: row.id,
                stability: row.stability.unwrap_or(zero),
                difficulty: row.difficulty.unwrap_or(zero),
                interval_days: row.interval as i64,
                next_review_at: row.next_review_at,
            },
        },
        Err(error) => {
            let (status, message) = classify_db_error(&error);
            error_reply(status, message.as_str())
        },
    }
}

/// Every rating is read back from its own name, in whatever case its letters
/// are written.
pub proof fn law_a_rating_is_read_in_any_case(rating: Rating, written: Seq<char>)
    requires
        ascii_lowercase(written) == rating.name(),
    ensures
        vstd::utf8::is_ascii_chars(written),
        rating_named(ascii_lowercase(written)) == Ok::<Rating, ()>(rating),
{
    reveal_strlit("again");
    reveal_strlit("hard");
    reveal_strlit("good");
    reveal_strlit("easy");
    assert("again"@.len() == 5 && "hard"@.len() == 4 && "good"@.len() == 4 && "easy"@.len() == 4);
    assert(written.len() == rating.name().len());
    assert forall|i: int| 0 <= i < written.len() implies '\0' <= #[trigger] written[i]
        <= '\u{7f}' by {
        assert(ascii_lowercase(written)[i] == ascii_lower(written[i]));
        assert(i == 0 || i == 1 || i == 2 || i == 3 || i == 4);
        assert("again"@[1] <= 'z' && "again"@[2] <= 'z' && "again"@[3] <= 'z');
        assert("again"@[4] <= 'z');
        assert("hard"@[1] <= 'z' && "hard"@[2] <= 'z' && "hard"@[3] <= 'z');
        assert("good"@[1] <= 'z' && "good"@[2] <= 'z' && "good"@[3] <= 'z');
        assert("easy"@[1] <= 'z' && "easy"@[2] <= 'z' && "easy"@[3] <= 'z');
        assert(rating.name()[i] <= 'z');
    }
    assert("hard"@[0] == 'h' && "good"@[0] == 'g' && "easy"@[0] == 'e' && "again"@[0] == 'a');
}

/// Nothing but the four names is read as a rating.
pub proof fn law_only_the_four_names_are_ratings(name: Seq<char>)
    ensures
        rating_named(name) matches Ok(rating) ==> name == rating.name(),
{
}

/// A card that is due a whole number of days from now, at least one and at the
/// same time of day, gets exactly that interval.
pub proof fn law_the_interval_is_recovered(now: Timestamp, due: Timestamp, days: int)
    requires
        days >= 1,
        due.secs() == now.secs() + days * 86_400,
        due.nanos() == now.nanos(),
    ensures
        interval_days(now, due) == days,
{
    assert(due.secs() as int % 86_400 == now.secs() as int % 86_400);
    assert(now.until(due) == days * 86_400_000_000_000);
    assert(days * 86_400_000_000_000 / 86_400_000_000_000 == days) by (nonlinear_arith);
}

/// No card comes back in less than a day.
pub proof fn law_the_interval_is_at_least_a_day(now: Timestamp, due: Timestamp)
    ensures
        interval_days(now, due) >= 1,
{
}

} // verus!
