//! Time as the encoder sees it: a point in civil time counted in seconds, the
//! calendar fields that the frame carries, and spans of time to wait.

use chrono::{Datelike, Timelike};
use core::time::Duration;
use vstd::arithmetic::div_mod::lemma_mod_mod;
use vstd::prelude::*;

verus! {

/// The span of time that `Duration::from_millis` makes of a number of
/// milliseconds.
pub uninterp spec fn duration_from_millis(millis: u64) -> Duration;

/// The span of time that `Duration::from_nanos` makes of a number of
/// nanoseconds.
pub uninterp spec fn duration_from_nanos(nanos: u64) -> Duration;

/// `Duration::from_millis` of std: the result depends on the number of
/// milliseconds alone. Nothing more is claimed of it.
pub assume_specification[ Duration::from_millis ](millis: u64) -> (d: Duration)
    ensures
        d == duration_from_millis(millis),
;

/// `Duration::from_nanos` of std: the result depends on the number of
/// nanoseconds alone. Nothing more is claimed of it.
pub assume_specification[ Duration::from_nanos ](nanos: u64) -> (d: Duration)
    ensures
        d == duration_from_nanos(nanos),
;

/// The first second that the calendar reaches: the start of the year -262143.
pub const MIN_SECS: i64 = -8_334_601_228_800;

/// The last second that the calendar reaches: the end of the year 262142.
pub const MAX_SECS: i64 = 8_210_266_876_799;

pub const NANOS_PER_SEC: u32 = 1_000_000_000;

/// A point in civil time: whole seconds counted from 1970-01-01 00:00:00
/// without leap seconds, and the nanoseconds since that whole second. A leap
/// second is written as the second before it, a minute's last, with a billion
/// nanoseconds or more.
#[derive(Debug, Clone, Copy, PartialEq, Eq, Structural)]
pub struct Timestamp {
    pub secs: i64,
    pub nanos: u32,
}

impl Timestamp {
    /// The point lies within the calendar, and the nanoseconds pass a billion
    /// only in the last second of a minute.
    pub open spec fn wf(self) -> bool {
        &&& MIN_SECS <= self.secs <= MAX_SECS
        &&& self.nanos < 2 * NANOS_PER_SEC
        &&& self.nanos >= NANOS_PER_SEC ==> self.secs % 60 == 59
    }

    /// The whole second that follows: the nanoseconds are dropped, a leap
    /// second with them, and one second is added.
    pub open spec fn next_whole_second(self) -> Timestamp {
        Timestamp { secs: (self.secs + 1) as i64, nanos: 0 }
    }

    /// The nanoseconds from this point to the next whole second. Within a
    /// leap second the billion that marks it is not counted.
    pub open spec fn nanos_to_next_second(self) -> int {
        if self.nanos < NANOS_PER_SEC {
            NANOS_PER_SEC - self.nanos
        } else {
            2 * NANOS_PER_SEC - self.nanos
        }
    }

    /// Returns the point in time with these numbers, if there is one.
    pub fn new(secs: i64, nanos: u32) -> (r: Option<Timestamp>)
        ensures
            r is Some <==> (Timestamp { secs, nanos }).wf(),
            r is Some ==> r->0 == (Timestamp { secs, nanos }),
    {
        if secs < MIN_SECS || secs > MAX_SECS || nanos >= 2 * NANOS_PER_SEC {
            return None;
        }
        let since_first: i64 = secs - MIN_SECS;
        assert(since_first % 60 == secs % 60);
        if nanos >= NANOS_PER_SEC && since_first % 60 != 59 {
            return None;
        }
        Some(Timestamp { secs, nanos })
    }
}

/// The wait for the next whole second is never zero and never more than a
/// second, and from a whole second it is exactly one second. The next whole
/// second has no nanoseconds and is one second on in the count of seconds.
pub proof fn lemma_next_second_advances(now: Timestamp)
    requires
        now.wf(),
        now.secs < MAX_SECS,
    ensures
        0 < now.nanos_to_next_second() <= NANOS_PER_SEC,
        now.nanos == 0 ==> now.nanos_to_next_second() == NANOS_PER_SEC,
        0 < now.nanos < NANOS_PER_SEC ==> now.nanos_to_next_second() < NANOS_PER_SEC,
        now.next_whole_second().wf(),
        now.next_whole_second().nanos == 0,
        now.next_whole_second().secs == now.secs + 1,
{
}

/// The calendar fields of a point in time that the frame carries.
#[derive(Debug, Clone, Copy, PartialEq, Eq, Structural)]
pub struct CivilTime {
    /// Year of the proleptic Gregorian calendar.
    pub year: i32,
    /// Day of the year, from 1.
    pub ordinal: u32,
    /// Day of the week, Sunday being 0.
    pub weekday: u32,
    pub hour: u32,
    pub minute: u32,
    pub second: u32,
}

impl CivilTime {
    /// Each field lies in the range that the calendar gives it.
    pub open spec fn wf(self) -> bool {
        &&& 1 <= self.ordinal <= 366
        &&& self.weekday <= 6
        &&& self.hour <= 23
        &&& self.minute <= 59
        &&& self.second <= 59
    }
}

/// The year in which the second `secs` falls, as chrono's `year` gives it.
pub uninterp spec fn year_at(secs: i64) -> i32;

/// The day of the year on which the second `secs` falls, as chrono's
/// `ordinal` gives it.
pub uninterp spec fn ordinal_at(secs: i64) -> u32;

/// The day of the week on which the second `secs` falls, as chrono's
/// `weekday` gives it, counted from Sunday.
pub uninterp spec fn weekday_at(secs: i64) -> u32;

/// The seconds that have passed since midnight at the second `secs`.
pub open spec fn second_of_day(secs: i64) -> int {
    (secs as int) % 86_400
}

/// The calendar fields of the second `secs`: the date as chrono's calendar
/// has it, and the time of day counted off the seconds since midnight.
pub open spec fn civil_at(secs: i64) -> CivilTime {
    CivilTime {
        year: year_at(secs),
        ordinal: ordinal_at(secs),
        weekday: weekday_at(secs),
        hour: (second_of_day(secs) / 3600) as u32,
        minute: (second_of_day(secs) / 60 % 60) as u32,
        second: (second_of_day(secs) % 60) as u32,
    }
}

/// The second of the minute is the remainder of the count of seconds by 60.
proof fn lemma_second_of_minute(secs: i64)
    ensures
        civil_at(secs).second == secs as int % 60,
{
    lemma_mod_mod(secs as int, 60, 1440);
}

/// From one whole second to the next the second of the minute goes up by
/// one, and from 59 back to 0.
pub proof fn lemma_second_of_minute_advances(now: Timestamp)
    requires
        now.secs < i64::MAX,
    ensures
        civil_at(now.secs).second < 60,
        civil_at(now.next_whole_second().secs).second == (civil_at(now.secs).second + 1) % 60,
{
    lemma_second_of_minute(now.secs);
    lemma_second_of_minute(now.next_whole_second().secs);
}

/// Reads the calendar fields of a second off chrono: `DateTime::from_timestamp`
/// makes the date and time, and `year`, `ordinal`, `weekday` with
/// `num_days_from_sunday`, `hour`, `minute` and `second` give the fields.
/// Within the bounds chrono has a date for the second. The date depends on the
/// second alone; the day of the year is 1 to 366 and the day of the week 0 to
/// 6, as chrono documents them. The time of day is the remainder of the second
/// by 86400, split into hours, minutes and seconds.
#[verifier::external_body]
pub(crate) fn civil_fields(secs: i64) -> (t: CivilTime)
    requires
        MIN_SECS <= secs <= MAX_SECS,
    ensures
        t.year == year_at(secs),
        t.ordinal == ordinal_at(secs),
        t.weekday == weekday_at(secs),
        1 <= t.ordinal <= 366,
        t.weekday <= 6,
        t.hour == second_of_day(secs) / 3600,
        t.minute == second_of_day(secs) / 60 % 60,
        t.second == second_of_day(secs) % 60,
{
    let at = chrono::DateTime::from_timestamp(secs, 0).unwrap().naive_utc();
    CivilTime {
        year: at.year(),
        ordinal: at.ordinal(),
        weekday: at.weekday().num_days_from_sunday(),
        hour: at.hour(),
        minute: at.minute(),
        second: at.second(),
    }
}

} // verus!
