//! Instants and calendar days as plain integers.

use vstd::prelude::*;

verus! {

/// Day number, in the proleptic Gregorian calendar, of 1 January 1970.
pub const UNIX_EPOCH_DAY: i32 = 719_163;

/// Seconds in one civil day.
pub const SECONDS_PER_DAY: i64 = 86_400;

/// Nanoseconds in one second.
pub const NANOS_PER_SECOND: i128 = 1_000_000_000;

/// Nanoseconds in twenty-four hours.
pub const NANOS_PER_DAY: i128 = 86_400_000_000_000;

/// Largest magnitude of `secs` for which a calendar day is always available.
pub const CALENDAR_SECONDS_LIMIT: i64 = 8_000_000_000_000;

/// An instant in UTC: whole seconds since the Unix epoch and the nanoseconds
/// that have passed since that whole second.
#[derive(Clone, Copy, Debug, PartialEq, Eq, Structural)]
pub struct Timestamp {
    pub secs: i64,
    pub nanos: u32,
}

/// A calendar day, counted in the proleptic Gregorian calendar with
/// 1 January of year 1 as day 1.
#[derive(Clone, Copy, Debug, PartialEq, Eq, Structural)]
pub struct CalendarDay {
    pub days_from_ce: i32,
}

/// The day number of the UTC calendar day that holds second `secs`.
pub open spec fn utc_day_number(secs: int) -> int {
    UNIX_EPOCH_DAY + secs / (SECONDS_PER_DAY as int)
}

/// The day number that chrono gives for the UTC day of an instant, or `None`
/// where chrono refuses the instant.
pub uninterp spec fn chrono_utc_day(secs: i64, nanos: u32) -> Option<i32>;

/// `DateTime::from_timestamp`, `DateTime::date_naive` and
/// `Datelike::num_days_from_ce` of chrono, in that order. The instant is
/// rebuilt from its two integers and the day it falls on in UTC is handed back
/// as a day number. chrono refuses instants outside its calendar and
/// nanosecond counts that are no valid fraction; for a fraction below one
/// second and `secs` within `CALENDAR_SECONDS_LIMIT` of the epoch it accepts.
/// The day number it gives is the epoch's day number plus the whole days in
/// `secs`, rounded towards negative infinity.
#[verifier::external_body]
fn utc_day_from_chrono(secs: i64, nanos: u32) -> (day: Option<i32>)
    ensures
        day == chrono_utc_day(secs, nanos),
        day matches Some(d) ==> d == utc_day_number(secs as int),
        -CALENDAR_SECONDS_LIMIT <= secs <= CALENDAR_SECONDS_LIMIT && nanos < NANOS_PER_SECOND
            ==> day is Some,
{
    match chrono::DateTime::from_timestamp(secs, nanos) {
        Some(instant) => Some(chrono::Datelike::num_days_from_ce(&instant.date_naive())),
        None => None,
    }
}

impl Timestamp {
    /// Nanoseconds between the Unix epoch and this instant.
    pub open spec fn nanos_since_epoch(self) -> int {
        self.secs * NANOS_PER_SECOND + self.nanos
    }

    /// Nanoseconds from `earlier` to this instant; negative when this instant
    /// comes first.
    pub open spec fn elapsed_since(self, earlier: Timestamp) -> int {
        self.nanos_since_epoch() - earlier.nanos_since_epoch()
    }

    /// Whether a calendar day is guaranteed to exist for this instant.
    pub open spec fn within_calendar(self) -> bool {
        &&& -CALENDAR_SECONDS_LIMIT <= self.secs <= CALENDAR_SECONDS_LIMIT
        &&& self.nanos < NANOS_PER_SECOND
    }

    /// The instant `nanos` nanoseconds after second `secs` of the Unix era.
    pub fn new(secs: i64, nanos: u32) -> (t: Timestamp)
        ensures
            t == (Timestamp { secs, nanos }),
    {
        Timestamp { secs, nanos }
    }

    /// Whether more than twenty-four hours lie between `earlier` and this
    /// instant.
    pub fn is_more_than_a_day_after(&self, earlier: &Timestamp) -> (stale: bool)
        ensures
            stale == (self.elapsed_since(*earlier) > NANOS_PER_DAY),
    {
        let later: i128 = self.secs as i128 * NANOS_PER_SECOND + self.nanos as i128;
        let sooner: i128 = earlier.secs as i128 * NANOS_PER_SECOND + earlier.nanos as i128;
        later - sooner > NANOS_PER_DAY
    }

    /// The UTC calendar day of this instant, as chrono's calendar has it.
    pub open spec fn calendar_day(self) -> Option<CalendarDay> {
        match chrono_utc_day(self.secs, self.nanos) {
            Some(days_from_ce) => Some(CalendarDay { days_from_ce }),
            None => None,
        }
    }

    /// The UTC calendar day on which this instant falls, where the calendar
    /// reaches that far.
    pub fn date_naive(&self) -> (day: Option<CalendarDay>)
        ensures
            day == self.calendar_day(),
            day matches Some(d) ==> d.days_from_ce == utc_day_number(self.secs as int),
            self.within_calendar() ==> day is Some,
    {
        match utc_day_from_chrono(self.secs, self.nanos) {
            Some(days_from_ce) => Some(CalendarDay { days_from_ce }),
            None => None,
        }
    }
}

} // verus!
