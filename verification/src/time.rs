//! Points in time, counted from the start of 1970 in UTC.

use chrono::{DateTime, TimeDelta, Utc};
use std::time::{SystemTime, UNIX_EPOCH};
use vstd::prelude::*;

verus! {

/// The first second of the calendar: the start of the year -262143.
pub const FIRST_SECOND: i64 = -8_334_601_228_800;

/// The last second of the calendar: the end of the year 262142.
pub const LAST_SECOND: i64 = 8_210_266_876_799;

/// The longest span of time that can be counted, in seconds.
pub const LONGEST_SPAN: i64 = 9_223_372_036_854_775;

/// A point in time: whole seconds since the start of 1970, and the nanoseconds
/// since the last whole second.
#[derive(Debug, Clone, Copy, PartialEq, Eq)]
pub struct Timestamp {
    pub secs: i64,
    pub nanos: u32,
}

impl DeepView for Timestamp {
    type V = Timestamp;

    open spec fn deep_view(&self) -> Timestamp {
        *self
    }
}

impl Timestamp {
    /// Whether the calendar has this point in time.
    pub open spec fn valid(self) -> bool {
        FIRST_SECOND <= self.secs <= LAST_SECOND && self.nanos < 1_000_000_000
    }

    /// Whether this point in time is earlier than `other`.
    pub open spec fn is_before(self, other: Timestamp) -> bool {
        self.secs < other.secs || (self.secs == other.secs && self.nanos < other.nanos)
    }

    /// The point in time that is `span` seconds later, where the calendar has
    /// it.
    pub open spec fn later_by(self, span: int) -> Option<Timestamp> {
        if self.valid() && FIRST_SECOND <= self.secs + span <= LAST_SECOND {
            Some(Timestamp { secs: (self.secs + span) as i64, nanos: self.nanos })
        } else {
            None
        }
    }

    /// Whether this point in time is earlier than `other`.
    pub fn before(self, other: Timestamp) -> (r: bool)
        ensures
            r == self.is_before(other),
    {
        self.secs < other.secs || (self.secs == other.secs && self.nanos < other.nanos)
    }

    /// The point in time that is `seconds` seconds later, where the calendar
    /// has it.
    pub fn plus_seconds(self, seconds: i64) -> (r: Option<Timestamp>)
        ensures
            r == self.later_by(seconds as int),
    {
        if self.secs < FIRST_SECOND || self.secs > LAST_SECOND || self.nanos >= 1_000_000_000 {
            return None;
        }
        match add_seconds(self.secs, self.nanos, seconds) {
            Some((secs, nanos)) => Some(Timestamp { secs, nanos }),
            None => None,
        }
    }

    /// The point in time that is `minutes` minutes later, where the calendar
    /// has it.
    pub fn plus_minutes(self, minutes: i64) -> (r: Option<Timestamp>)
        ensures
            r == self.later_by(60 * minutes),
    {
        match minutes_to_seconds(minutes) {
            Some(seconds) => self.plus_seconds(seconds),
            None => None,
        }
    }
}

/// Calls `NaiveDateTime::checked_add_signed` with a span made by
/// `TimeDelta::try_seconds`.
///
/// The sum exists exactly where the calendar has it; the part below the second
/// stays as it is.
#[verifier::external_body]
fn add_seconds(secs: i64, nanos: u32, seconds: i64) -> (r: Option<(i64, u32)>)
    requires
        FIRST_SECOND <= secs <= LAST_SECOND,
        nanos < 1_000_000_000,
    ensures
        r is Some <==> FIRST_SECOND <= secs + seconds <= LAST_SECOND,
        r matches Some(sum) ==> sum.0 == secs + seconds && sum.1 == nanos,
{
    let start = DateTime::from_timestamp(secs, nanos)?.naive_utc();
    let sum = start.checked_add_signed(TimeDelta::try_seconds(seconds)?)?.and_utc();
    Some((sum.timestamp(), sum.timestamp_subsec_nanos()))
}

/// Calls `TimeDelta::try_minutes`.
///
/// The span exists exactly where its milliseconds fit in an `i64`, and has
/// sixty seconds for each minute.
#[verifier::external_body]
fn minutes_to_seconds(minutes: i64) -> (r: Option<i64>)
    ensures
        r is Some <==> -LONGEST_SPAN <= 60 * minutes <= LONGEST_SPAN,
        r matches Some(seconds) ==> seconds == 60 * minutes,
{
    TimeDelta::try_minutes(minutes).map(|span| span.num_seconds())
}

/// Calls `Utc::now`: the clock, to the nanosecond.
///
/// The calendar has whatever the clock shows; nothing more is known of it. A
/// clock that shows a time before 1970 makes the call panic.
#[verifier::external_body]
fn utc_now() -> (r: (i64, u32))
    ensures
        FIRST_SECOND <= r.0 <= LAST_SECOND,
        r.1 < 1_000_000_000,
{
    let now = Utc::now();
    (now.timestamp(), now.timestamp_subsec_nanos())
}

/// Calls `SystemTime::now`: the whole seconds that the clock shows, for which
/// `DateTime::from_timestamp` finds a date.
///
/// The calendar has whatever the clock shows; nothing more is known of it. A
/// clock that shows a time before 1970, or one that the calendar lacks, makes
/// the call panic.
#[verifier::external_body]
fn clock_seconds() -> (r: i64)
    ensures
        FIRST_SECOND <= r <= LAST_SECOND,
{
    let seconds = SystemTime::now().duration_since(UNIX_EPOCH).unwrap().as_secs() as i64;
    DateTime::from_timestamp(seconds, 0).unwrap().timestamp()
}

/// What the clock shows, to the nanosecond.
pub fn generate_timestamp() -> (r: Timestamp)
    ensures
        r.valid(),
{
    let (secs, nanos) = utc_now();
    Timestamp { secs, nanos }
}

/// What the clock shows, in whole seconds.
pub fn now() -> (r: Timestamp)
    ensures
        r.valid(),
        r.nanos == 0,
{
    Timestamp { secs: clock_seconds(), nanos: 0 }
}

} // verus!
