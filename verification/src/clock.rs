//! Points in time as the event stream carries them, and the arithmetic on them
//! that `chrono` performs.

use chrono::{DateTime, Utc};
use std::time::{Duration, Instant};
use vstd::prelude::*;

verus! {

/// The earliest Unix second that `chrono` represents (January 1, 262144 BCE).
pub const MIN_UNIX_SECONDS: i64 = -8_334_601_228_800i64;

/// The latest Unix second that `chrono` represents (December 31, 262142 CE, 23:59:59).
pub const MAX_UNIX_SECONDS: i64 = 8_210_266_876_799i64;

/// Nanoseconds in one second.
pub const NANOS_PER_SECOND: u32 = 1_000_000_000u32;

/// `chrono` accepts a Unix second and a nanosecond part when the second lies in its
/// range and the nanosecond part is below one second, or below two seconds on the
/// last second of a minute (a leap second).
pub open spec fn accepted_by_chrono(secs: int, nanos: int) -> bool {
    &&& MIN_UNIX_SECONDS <= secs <= MAX_UNIX_SECONDS
    &&& 0 <= nanos < 2 * NANOS_PER_SECOND
    &&& nanos >= NANOS_PER_SECOND ==> secs % 60 == 59
}

/// The signed number of nanoseconds from `earlier` to `later`, as `chrono` counts it:
/// a leap second is counted when the other instant lies at a later (or earlier)
/// second of its day.
pub open spec fn nanos_between(later_secs: int, later_nanos: int, earlier_secs: int, earlier_nanos: int) -> int {
    let later_of_day = later_secs % 86_400;
    let earlier_of_day = earlier_secs % 86_400;
    let leap: int = if later_of_day > earlier_of_day && earlier_nanos >= NANOS_PER_SECOND {
        1
    } else if later_of_day < earlier_of_day && later_nanos >= NANOS_PER_SECOND {
        -1
    } else {
        0
    };
    (later_secs - earlier_secs + leap) * NANOS_PER_SECOND + later_nanos - earlier_nanos
}

/// Integer division that rounds toward zero.
pub open spec fn div_toward_zero(n: int, d: int) -> int {
    if n >= 0 {
        n / d
    } else {
        -((-n) / d)
    }
}

/// Whole milliseconds from `earlier` to `later`, rounded toward zero.
pub open spec fn millis_between(later: (i64, u32), earlier: (i64, u32)) -> int {
    div_toward_zero(
        nanos_between(later.0 as int, later.1 as int, earlier.0 as int, earlier.1 as int),
        1_000_000,
    )
}

/// `chrono::DateTime::<Utc>::from_timestamp`, read back through `timestamp` and
/// `timestamp_subsec_nanos`: `Some` exactly when `chrono` accepts the pair (its range
/// of years and its leap-second rule), and then the pair itself.
#[verifier::external_body]
fn utc_from_timestamp(secs: i64, nanos: u32) -> (res: Option<(i64, u32)>)
    ensures
        res is Some <==> accepted_by_chrono(secs as int, nanos as int),
        res matches Some(p) ==> p.0 == secs && p.1 == nanos,
{
    match DateTime::<Utc>::from_timestamp(secs, nanos) {
        Some(date) => Some((date.timestamp(), date.timestamp_subsec_nanos())),
        None => None,
    }
}

/// `DateTime<Utc> - DateTime<Utc>` followed by `TimeDelta::num_milliseconds`, on two
/// instants given as Unix second and nanosecond part: the signed span in whole
/// milliseconds, rounded toward zero, with `chrono`'s leap-second accounting.
#[verifier::external_body]
fn utc_millis_between(later_secs: i64, later_nanos: u32, earlier_secs: i64, earlier_nanos: u32) -> (ms: i64)
    requires
        accepted_by_chrono(later_secs as int, later_nanos as int),
        accepted_by_chrono(earlier_secs as int, earlier_nanos as int),
    ensures
        ms == millis_between((later_secs, later_nanos), (earlier_secs, earlier_nanos)),
{
    let later = DateTime::<Utc>::from_timestamp(later_secs, later_nanos).unwrap();
    let earlier = DateTime::<Utc>::from_timestamp(earlier_secs, earlier_nanos).unwrap();
    (later - earlier).num_milliseconds()
}

/// A UTC instant: a Unix second and a nanosecond part that `chrono` accepts.
#[derive(Clone, Copy, Debug)]
pub struct Timestamp {
    secs: i64,
    nanos: u32,
}

impl View for Timestamp {
    type V = (i64, u32);

    closed spec fn view(&self) -> (i64, u32) {
        (self.secs, self.nanos)
    }
}

impl Timestamp {
    #[verifier::type_invariant]
    spec fn in_range(self) -> bool {
        accepted_by_chrono(self.secs as int, self.nanos as int)
    }

    /// The instant `secs` seconds and `nanos` nanoseconds after the Unix epoch, or
    /// `None` where `chrono` has no such instant.
    pub fn from_timestamp(secs: i64, nanos: u32) -> (res: Option<Timestamp>)
        ensures
            res is Some <==> accepted_by_chrono(secs as int, nanos as int),
            res matches Some(t) ==> t@ == (secs, nanos),
    {
        match utc_from_timestamp(secs, nanos) {
            Some(p) => Some(Timestamp { secs: p.0, nanos: p.1 }),
            None => None,
        }
    }

    /// The Unix second.
    pub fn timestamp(&self) -> (res: i64)
        ensures
            res == self@.0,
    {
        self.secs
    }

    /// The nanosecond part (at least one second only within a leap second).
    pub fn subsec_nanos(&self) -> (res: u32)
        ensures
            res == self@.1,
    {
        self.nanos
    }

    /// Whole milliseconds from `earlier` to `self`, negative when `self` is earlier.
    pub fn millis_since(&self, earlier: &Timestamp) -> (ms: i64)
        ensures
            ms == millis_between(self@, earlier@),
    {
        proof {
            use_type_invariant(self);
            use_type_invariant(earlier);
        }
        utc_millis_between(self.secs, self.nanos, earlier.secs, earlier.nanos)
    }
}

#[verifier::external_type_specification]
#[verifier::external_body]
pub struct ExInstant(Instant);

/// `std::time::Instant::now`: the current reading of the monotonic clock. Nothing is
/// claimed of its value.
#[verifier::external_body]
pub(crate) fn instant_now() -> Instant {
    Instant::now()
}

/// `std::time::Instant::elapsed`: the time since `start`. Nothing is claimed of it:
/// it depends on when the call is made.
#[verifier::external_body]
pub(crate) fn instant_elapsed(start: &Instant) -> Duration {
    start.elapsed()
}

/// `std::time::Duration::as_millis`: the whole milliseconds of a span. A `Duration`
/// is opaque here, so nothing is claimed of the number.
#[verifier::external_body]
pub(crate) fn duration_as_millis(span: &Duration) -> u128 {
    span.as_millis()
}

/// The span from an instant to itself is zero.
pub proof fn lemma_millis_between_self(t: (i64, u32))
    ensures
        millis_between(t, t) == 0,
{
}

/// Swapping the two instants negates the span.
pub proof fn lemma_millis_between_antisymmetric(a: (i64, u32), b: (i64, u32))
    ensures
        millis_between(a, b) == -millis_between(b, a),
{
    let n = nanos_between(a.0 as int, a.1 as int, b.0 as int, b.1 as int);
    assert(nanos_between(b.0 as int, b.1 as int, a.0 as int, a.1 as int) == -n);
}

} // verus!
