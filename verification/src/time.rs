//! Points in time and the whole days between them.

use vstd::prelude::*;

verus! {

/// The first second that a timestamp can name, in the year 262144 BCE.
pub const MIN_SECS: i64 = -8_334_601_228_800;

/// The last second that a timestamp can name, in the year 262142.
pub const MAX_SECS: i64 = 8_210_266_876_799;

pub const NANOS_PER_SEC: u32 = 1_000_000_000;

/// A point in time: seconds since the Unix epoch and nanoseconds behind them.
/// The last second of a minute can be followed by a leap second, which is
/// written as a second billion of nanoseconds.
#[derive(Debug, Clone, Copy, PartialEq, Eq)]
pub struct Timestamp {
    secs: i64,
    nanos: u32,
}

/// The pair names a point in time.
pub open spec fn in_range(secs: i64, nanos: u32) -> bool {
    &&& MIN_SECS <= secs <= MAX_SECS
    &&& nanos < NANOS_PER_SEC || (nanos < 2 * NANOS_PER_SEC && secs as int % 60 == 59)
}

/// Nanoseconds since the Unix epoch, leap seconds not counted.
pub open spec fn epoch_nanos(secs: i64, nanos: u32) -> int {
    secs * 1_000_000_000 + nanos
}

/// The leap second that a span counts in addition: one that it starts in,
/// where it ends at a later time of day, or, backwards, one that it ends in.
pub open spec fn leap_nanos(from_secs: i64, from_nanos: u32, to_secs: i64, to_nanos: u32) -> int {
    let from_time = from_secs as int % 86_400;
    let to_time = to_secs as int % 86_400;
    if from_time < to_time && from_nanos >= NANOS_PER_SEC {
        1_000_000_000
    } else if to_time < from_time && to_nanos >= NANOS_PER_SEC {
        -1_000_000_000
    } else {
        0
    }
}

/// The nanoseconds from one point in time to another.
pub open spec fn span(from_secs: i64, from_nanos: u32, to_secs: i64, to_nanos: u32) -> int {
    epoch_nanos(to_secs, to_nanos) - epoch_nanos(from_secs, from_nanos) + leap_nanos(
        from_secs,
        from_nanos,
        to_secs,
        to_nanos,
    )
}

/// The whole days in a span, rounded towards zero.
pub open spec fn whole_days(nanos: int) -> int {
    if nanos >= 0 {
        nanos / 86_400_000_000_000
    } else {
        -((-nanos) / 86_400_000_000_000)
    }
}

impl Timestamp {
    #[verifier::type_invariant]
    spec fn wf(self) -> bool {
        in_range(self.secs, self.nanos)
    }

    /// The seconds since the Unix epoch.
    pub closed spec fn secs(self) -> i64 {
        self.secs
    }

    /// The nanoseconds behind the second.
    pub closed spec fn nanos(self) -> u32 {
        self.nanos
    }

    /// The nanoseconds from this point to another.
    pub open spec fn until(self, later: Timestamp) -> int {
        span(self.secs(), self.nanos(), later.secs(), later.nanos())
    }

    /// A timestamp of these parts, where they name a point in time.
    pub fn new(secs: i64, nanos: u32) -> (r: Option<Timestamp>)
        ensures
            match r {
                Some(t) => in_range(secs, nanos) && t.secs() == secs && t.nanos() == nanos,
                None => !in_range(secs, nanos),
            },
    {
        if secs < MIN_SECS || MAX_SECS < secs {
            return None;
        }
        let second: i64 = (secs - MIN_SECS) % 60;
        if nanos < NANOS_PER_SEC || (nanos < 2 * NANOS_PER_SEC && second == 59) {
            Some(Timestamp { secs, nanos })
        } else {
            None
        }
    }

    /// The seconds and the nanoseconds behind them.
    pub fn parts(&self) -> (r: (i64, u32))
        ensures
            in_range(r.0, r.1),
            r.0 == self.secs(),
            r.1 == self.nanos(),
    {
        proof {
            use_type_invariant(self);
        }
        (self.secs, self.nanos)
    }

    /// The whole days from this point to a later one, rounded towards zero;
    /// negative where the other point is earlier.
    pub fn days_until(&self, later: &Timestamp) -> (r: i64)
        ensures
            r == whole_days(self.until(*later)),
            -200_000_000 < r < 200_000_000,
    {
        proof {
            use_type_invariant(self);
            use_type_invariant(later);
        }
        days_between(self.secs, self.nanos, later.secs, later.nanos)
    }
}

/// `chrono::DateTime::from_timestamp` for two points in time, their
/// difference, and `chrono::TimeDelta::num_days` of it: the whole days of the
/// span, rounded towards zero. A timestamp in range always has a date. A leap
/// second counts where the span starts in it and ends at a later time of day,
/// and backwards where it ends in it and starts at a later time of day.
#[verifier::external_body]
fn days_between(from_secs: i64, from_nanos: u32, to_secs: i64, to_nanos: u32) -> (r: i64)
    requires
        in_range(from_secs, from_nanos),
        in_range(to_secs, to_nanos),
    ensures
        r == whole_days(span(from_secs, from_nanos, to_secs, to_nanos)),
{
    let from = chrono::DateTime::from_timestamp(from_secs, from_nanos).unwrap();
    let to = chrono::DateTime::from_timestamp(to_secs, to_nanos).unwrap();
    (to - from).num_days()
}

} // verus!
