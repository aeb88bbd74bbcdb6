//! Reviews, the review queue and the days between points in time.

use mnemosyne::handlers::due::{due_reply, plan_query, DueCardOut, DueCardRow, DueQuery};
use mnemosyne::handlers::reviews::{
    event_reply, parse_rating, rating_for, CardState, EventInsertion, InsertedEventRow,
    NewCardStates, PriorEventRow, Rating, Review, ReviewRequest, ReviewResponse, Schedule,
};
use mnemosyne::handlers::DbError;
use mnemosyne::http::Reply;
use mnemosyne::time::{Timestamp, MAX_SECS, MIN_SECS};

const DAY: i64 = 86_400;

fn at(secs: i64) -> Timestamp {
    Timestamp::new(secs, 0).unwrap()
}

fn state(stability: f32, due: Timestamp) -> CardState<f32> {
    CardState { stability, difficulty: 5.5, due, last_review: None }
}

fn review(rating: Rating) -> Review {
    Review { card_id: 1, user_id: 2, rating }
}

#[test]
fn ratings_are_read_in_any_case() {
    assert_eq!(parse_rating("again"), Ok(Rating::Again));
    assert_eq!(parse_rating("HARD"), Ok(Rating::Hard));
    assert_eq!(parse_rating("GooD"), Ok(Rating::Good));
    assert_eq!(parse_rating("eASY"), Ok(Rating::Easy));
}

#[test]
fn nothing_but_the_four_names_is_a_rating() {
    for other in ["", " good", "good ", "goods", "ok", "1", "GÖÖD", "ИЗИ"] {
        assert_eq!(parse_rating(other), Err(()), "{other:?}");
    }
    assert_eq!(rating_for("good"), Ok(Rating::Good));
    assert_eq!(rating_for("GOOD"), Err(()));
}

#[test]
fn a_bad_rating_is_refused() {
    let request =
        ReviewRequest { card_id: 1, user_id: 2, rating: "Meh".to_string() };
    let error = request.rated().unwrap_err();
    assert_eq!(error.status, 400);
    assert_eq!(
        error.message,
        "invalid rating 'Meh': must be one of again, hard, good, easy"
    );
    let request = ReviewRequest { card_id: 1, user_id: 2, rating: "EASY".to_string() };
    let review = request.rated().unwrap();
    assert_eq!((review.card_id, review.user_id, review.rating), (1, 2, Rating::Easy));
}

#[test]
fn only_a_forgotten_card_is_wrong() {
    assert!(!Rating::Again.is_correct());
    assert!(Rating::Hard.is_correct());
    assert!(Rating::Good.is_correct());
    assert!(Rating::Easy.is_correct());
}

#[test]
fn a_card_with_a_state_is_followed_up() {
    let prior = PriorEventRow { stability: Some(3.5f32), difficulty: Some(4.5), created_at: at(7) };
    let Ok(Schedule::FollowUp(current)) =
        review(Rating::Good).prior_found(at(100), Ok(Some(prior)))
    else {
        panic!("the card has a state");
    };
    assert_eq!((current.stability, current.difficulty), (3.5, 4.5));
    assert_eq!(current.due, at(100));
    assert_eq!(current.last_review, Some(at(7)));
}

#[test]
fn a_card_without_a_state_starts_anew() {
    let half = |stability, difficulty| PriorEventRow { stability, difficulty, created_at: at(7) };
    for prior in [
        None,
        Some(half(None, None)),
        Some(half(Some(1.0f32), None)),
        Some(half(None, Some(1.0))),
    ] {
        let schedule = review(Rating::Good).prior_found(at(100), Ok(prior));
        assert!(matches!(schedule, Ok(Schedule::New)));
    }
    let error = review(Rating::Good).prior_found::<f32>(at(100), Err("down".to_string()));
    assert_eq!(error.unwrap_err().message, "database error looking up prior state: down");
}

#[test]
fn the_interval_is_recovered_from_the_due_date() {
    let row = review(Rating::Again).event(at(10), state(2.0, at(10 + 3 * DAY)));
    assert_eq!(row.interval, 3);
    assert_eq!((row.card_id, row.user_id, row.is_correct), (1, 2, false));
    assert_eq!((row.stability, row.difficulty), (2.0, 5.5));
    assert_eq!(row.next_review_at, at(10 + 3 * DAY));
    assert!(review(Rating::Hard).event(at(10), state(2.0, at(10))).is_correct);
}

#[test]
fn the_interval_is_at_least_a_day() {
    let interval = |due| review(Rating::Good).event(at(10), state(2.0, due)).interval;
    assert_eq!(interval(at(10)), 1);
    assert_eq!(interval(at(10 - 5 * DAY)), 1);
    assert_eq!(interval(at(9 + 2 * DAY)), 1);
    assert_eq!(interval(at(10 + 2 * DAY)), 2);
}

#[test]
fn the_rating_picks_the_state_of_a_new_card() {
    let states = || NewCardStates {
        again: state(1.0, at(DAY)),
        hard: state(2.0, at(2 * DAY)),
        good: state(3.0, at(3 * DAY)),
        easy: state(4.0, at(4 * DAY)),
    };
    for (rating, stability, days) in [
        (Rating::Again, 1.0, 1),
        (Rating::Hard, 2.0, 2),
        (Rating::Good, 3.0, 3),
        (Rating::Easy, 4.0, 4),
    ] {
        let row: Result<EventInsertion<f32>, Reply<ReviewResponse<f32>>> =
            review(rating).scheduled(at(0), Ok(states()));
        let row = row.unwrap();
        assert_eq!((row.stability, row.interval), (stability, days));
    }
}

#[test]
fn a_scheduler_error_ends_the_review() {
    let followed: Result<EventInsertion<f32>, Reply<ReviewResponse<f32>>> =
        review(Rating::Good).rescheduled(at(0), Err("nan".to_string()));
    let fresh: Result<EventInsertion<f32>, Reply<ReviewResponse<f32>>> =
        review(Rating::Good).scheduled(at(0), Err("nan".to_string()));
    for error in [followed.unwrap_err(), fresh.unwrap_err()] {
        assert!(matches!(
            error,
            Reply::Error(e) if e.status == 500 && e.message == "scheduler error: nan"
        ));
    }
    let row: Result<EventInsertion<f32>, Reply<ReviewResponse<f32>>> =
        review(Rating::Good).rescheduled(at(0), Ok(state(6.0, at(6 * DAY))));
    assert_eq!(row.unwrap().interval, 6);
}

#[test]
fn the_reply_reports_what_was_stored() {
    let row = InsertedEventRow {
        id: 77,
        stability: Some(3.5f32),
        difficulty: None,
        interval: 4,
        next_review_at: at(4 * DAY),
    };
    let Reply::Body { status, body } = event_reply(Ok(row), 0.0) else {
        panic!("the row was stored");
    };
    assert_eq!(status, 201);
    assert_eq!(body.learning_event_id, 77);
    assert_eq!((body.stability, body.difficulty), (3.5, 0.0));
    assert_eq!(body.interval_days, 4);
    assert_eq!(body.next_review_at, at(4 * DAY));
    let error = DbError { sqlstate: Some("23503".to_string()), text: "fk".to_string() };
    assert!(matches!(event_reply(Err(error), 0.0f32), Reply::Error(e) if e.status == 400));
}

#[test]
fn days_are_rounded_towards_zero() {
    let point = |secs, nanos| Timestamp::new(secs, nanos).unwrap();
    assert_eq!(point(0, 0).days_until(&point(DAY, 0)), 1);
    assert_eq!(point(0, 1).days_until(&point(DAY, 0)), 0);
    assert_eq!(point(DAY, 0).days_until(&point(0, 0)), -1);
    assert_eq!(point(DAY, 0).days_until(&point(0, 1)), 0);
    assert_eq!(point(-3 * DAY, 0).days_until(&point(4 * DAY, 999_999_999)), 7);
    assert_eq!(point(MIN_SECS, 0).days_until(&point(MAX_SECS, 999_999_999)), 191_491_528);
}

#[test]
fn a_leap_second_is_a_point_in_time() {
    let leap = Timestamp::new(DAY - 1, 1_500_000_000).unwrap();
    assert_eq!(leap.parts(), (DAY - 1, 1_500_000_000));
    assert!(Timestamp::new(DAY - 1, 2_000_000_000).is_none());
    assert!(Timestamp::new(DAY - 2, 1_000_000_000).is_none());
    assert!(Timestamp::new(-1, 1_999_999_999).is_some());
    assert!(Timestamp::new(MAX_SECS, 1_999_999_999).is_some());
    assert_eq!(leap.days_until(&Timestamp::new(2 * DAY - 1, 1_500_000_000).unwrap()), 1);
    assert_eq!(leap.days_until(&Timestamp::new(2 * DAY - 1, 500_000_000).unwrap()), 0);
    let minute = Timestamp::new(59, 1_000_000_000).unwrap();
    assert_eq!(minute.days_until(&at(DAY + 60)), 1);
    assert_eq!(at(60).days_until(&Timestamp::new(DAY + 59, 1_000_000_000).unwrap()), 0);
    assert_eq!(at(DAY + 60).days_until(&minute), -1);
    for secs in [-1, 59, DAY - 1, MAX_SECS] {
        assert!(chrono::DateTime::from_timestamp(secs, 1_999_999_999).is_some());
    }
    assert!(chrono::DateTime::from_timestamp(58, 1_000_000_000).is_none());
}

#[test]
fn a_timestamp_names_a_date() {
    assert!(Timestamp::new(MIN_SECS - 1, 0).is_none());
    assert!(Timestamp::new(MAX_SECS + 1, 0).is_none());
    assert!(Timestamp::new(0, 1_000_000_000).is_none());
    assert_eq!(Timestamp::new(5, 6).unwrap().parts(), (5, 6));
    for secs in [MIN_SECS, 0, MAX_SECS] {
        assert!(chrono::DateTime::from_timestamp(secs, 999_999_999).is_some());
    }
    assert!(chrono::DateTime::from_timestamp(MIN_SECS - 1, 0).is_none());
    assert!(chrono::DateTime::from_timestamp(MAX_SECS + 1, 0).is_none());
}

#[test]
fn the_queue_needs_a_user() {
    let error = plan_query(&DueQuery { user_id: None, limit: Some(5) }).unwrap_err();
    assert_eq!((error.status, error.message.as_str()), (400, "user_id query parameter is required"));
}

#[test]
fn the_limit_is_kept_within_its_bounds() {
    let limit = |limit| plan_query(&DueQuery { user_id: Some(3), limit }).unwrap().limit;
    assert_eq!(limit(None), 20);
    assert_eq!(limit(Some(0)), 1);
    assert_eq!(limit(Some(i64::MIN)), 1);
    assert_eq!(limit(Some(1)), 1);
    assert_eq!(limit(Some(100)), 100);
    assert_eq!(limit(Some(101)), 100);
    assert_eq!(plan_query(&DueQuery { user_id: Some(3), limit: None }).unwrap().user_id, 3);
}

#[test]
fn the_queue_is_sent_as_it_came() {
    let row = |card_id, next_review_at| DueCardRow {
        card_id,
        set_id: 9,
        question: "q".to_string(),
        answer: "a".to_string(),
        stability: Some(1.5f64),
        difficulty: None,
        next_review_at,
    };
    let fresh = DueCardOut::from(row(1, None));
    assert!(fresh.is_new);
    let Reply::Body { status, body } = due_reply(Ok(vec![row(1, None), row(2, Some(at(5)))])) else {
        panic!("the rows came");
    };
    assert_eq!((status, body.count), (200, 2));
    assert_eq!((body.due_cards[0].card_id, body.due_cards[0].is_new), (1, true));
    assert_eq!((body.due_cards[1].card_id, body.due_cards[1].is_new), (2, false));
    assert_eq!(body.due_cards[1].next_review_at, Some(at(5)));
    assert_eq!(body.due_cards[1].stability, Some(1.5));
    let Reply::Body { body, .. } = due_reply::<f64>(Ok(vec![])) else {
        panic!("an empty queue is no error");
    };
    assert_eq!(body.count, 0);
    let error = due_reply::<f64>(Err("down".to_string()));
    assert!(matches!(
        error,
        Reply::Error(e) if e.status == 500 && e.message == "database error: down"
    ));
}
