//! Points in time, as the engagement and scan logic reads them.
//!
//! The wall clock itself is read by the application; the library is handed
//! the instants it reasons about.
use vstd::prelude::*;

verus! {

/// An instant: whole seconds since the Unix epoch, the nanoseconds past
/// that second, and the UTC offset (in seconds) it was written with.
#[derive(Clone, Copy, Debug, PartialEq, Eq, Structural)]
pub struct Instant {
    pub secs: i64,
    pub nanos: u32,
    pub offset_secs: i32,
}

/// An instant well inside the range of dates `chrono` represents, and not
/// inside a leap second.
pub open spec fn plausible(t: Instant) -> bool {
    &&& t.nanos < 1_000_000_000
    &&& -8_000_000_000_000 <= t.secs <= 8_000_000_000_000
}

/// The whole minutes from `start` to `end`, truncated toward zero (negative
/// when `end` comes first).
pub open spec fn whole_minutes_between(start: Instant, end: Instant) -> int {
    let d: int = (end.secs - start.secs) * 1_000_000_000 + (end.nanos - start.nanos);
    if d >= 0 {
        d / 60_000_000_000
    } else {
        -((-d) / 60_000_000_000)
    }
}

/// The whole minutes from `start` to `end`, as `chrono` computes them:
/// `(end - start).num_minutes()` on the two UTC date-times.
///
/// Trusted: calls `chrono::DateTime::from_timestamp` on each instant,
/// subtracts them (`signed_duration_since`) and takes
/// `TimeDelta::num_minutes`, which truncates toward zero. The contract
/// claims that result whenever both instants could be built outside a leap
/// second, and that plausible instants can be built; it states nothing of
/// which other instants `chrono` refuses, nor of how it counts leap
/// seconds.
#[verifier::external_body]
fn minutes_between(start: &Instant, end: &Instant) -> (r: Option<i64>)
    ensures
        start.nanos < 1_000_000_000 && end.nanos < 1_000_000_000 ==> (r matches Some(m) ==> m
            == whole_minutes_between(*start, *end)),
        plausible(*start) && plausible(*end) ==> r is Some,
{
    match (
        chrono::DateTime::from_timestamp(start.secs, start.nanos),
        chrono::DateTime::from_timestamp(end.secs, end.nanos),
    ) {
        (Some(a), Some(b)) => Some((b - a).num_minutes()),
        _ => None,
    }
}

/// A queued or running job counts as stuck once it started more than ten
/// whole minutes before `now`.
pub open spec fn is_stuck_at(started: Option<Instant>, now: Instant) -> bool {
    started matches Some(s) && whole_minutes_between(s, now) > 10
}

/// Whether a job that started at `started` (if it has started) is stuck at
/// `now`: more than ten whole minutes have passed.
pub fn job_is_stuck(started: Option<Instant>, now: Instant) -> (r: bool)
    ensures
        (started matches Some(s) ==> plausible(s)) && plausible(now) ==> r == is_stuck_at(
            started,
            now,
        ),
        started is None ==> !r,
{
    match started {
        Some(s) => match minutes_between(&s, &now) {
            Some(m) => m > 10,
            None => false,
        },
        None => false,
    }
}

/// The instant an RFC 3339 text denotes, as `chrono` parses it: seconds
/// since the epoch, nanoseconds, and the offset written in the text; `None`
/// when it does not parse.
pub uninterp spec fn rfc3339_instant(s: Seq<char>) -> Option<(i64, u32, i32)>;

/// Parses an RFC 3339 date-time.
///
/// Trusted: calls `chrono::DateTime::parse_from_rfc3339` and reads back
/// `timestamp`, `timestamp_subsec_nanos` and the offset's
/// `local_minus_utc`. The grammar is not restated: the contract only names
/// the result (`rfc3339_instant`), which depends on the text alone.
#[verifier::external_body]
pub(crate) fn parse_rfc3339(s: &str) -> (r: Option<Instant>)
    ensures
        match r {
            Some(i) => rfc3339_instant(s@) == Some((i.secs, i.nanos, i.offset_secs)),
            None => rfc3339_instant(s@) is None,
        },
{
    match chrono::DateTime::parse_from_rfc3339(s) {
        Ok(dt) => Some(
            Instant {
                secs: dt.timestamp(),
                nanos: dt.timestamp_subsec_nanos(),
                offset_secs: dt.offset().local_minus_utc(),
            },
        ),
        Err(_) => None,
    }
}

} // verus!
