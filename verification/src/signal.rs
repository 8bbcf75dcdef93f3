//! What one second of the time code carries: the kind of slot and the value
//! sent in it.

use crate::signal::signal_type::SignalType;
use crate::signal::signal_value::SignalValue;
use crate::time::{civil_at, civil_fields, lemma_second_of_minute_advances, CivilTime, Timestamp};
use crate::utils::{bcd, bcd_spec, bcd_value, lemma_bcd_value_recovers, parity, parity_spec, pow10};
use vstd::pervasive::unreached;
use vstd::prelude::*;

pub mod signal_type;
pub mod signal_value;

verus! {

/// The last two digits of the year as the frame carries them: the remainder
/// by 100 of the year taken as an unsigned 32-bit number.
pub open spec fn year_mod_100_spec(year: i32) -> nat {
    if year >= 0 {
        (year % 100) as nat
    } else {
        ((year + 0x1_0000_0000) % 100) as nat
    }
}

/// The slot can be given a value: it is no stop announcement, a parity flag is
/// that of the hour or of the minute, and the field it covers has two digits.
pub open spec fn resolvable(slot: SignalType, hour: u32, minute: u32) -> bool {
    match slot {
        SignalType::ST(_) => false,
        SignalType::PA(p) => (p == 1 && hour < 100) || (p == 2 && minute < 100),
        _ => true,
    }
}

/// The value sent in a slot at a time with the given fields: a marker in the
/// marker and position slots, the slot's bit of its field in binary-coded
/// decimal, the parity of the hour or of the minute, and zero elsewhere.
pub open spec fn signal_value_spec(
    slot: SignalType,
    hour: u32,
    minute: u32,
    day_of_year: u32,
    year_mod_100: u32,
    weekday: u32,
) -> SignalValue {
    match slot {
        SignalType::Marker | SignalType::Position(_) => SignalValue::Marker,
        SignalType::Hour(i) => SignalValue::of_bit(bcd_spec(hour as nat, i as nat)),
        SignalType::Minute(i) => SignalValue::of_bit(bcd_spec(minute as nat, i as nat)),
        SignalType::Day(i) => SignalValue::of_bit(bcd_spec(day_of_year as nat, i as nat)),
        SignalType::Year(i) => SignalValue::of_bit(bcd_spec(year_mod_100 as nat, i as nat)),
        SignalType::DayOfWeek(i) => SignalValue::of_bit(bcd_spec(weekday as nat, i as nat)),
        SignalType::PA(p) => if p == 1 {
            SignalValue::of_bit(parity_spec(hour as nat))
        } else {
            SignalValue::of_bit(parity_spec(minute as nat))
        },
        SignalType::LS(_) | SignalType::SU(_) | SignalType::ST(_) | SignalType::Zero =>
            SignalValue::Zero,
    }
}

/// A marker is sent in the marker and position slots and in no other: every
/// other slot carries a zero or a one.
pub proof fn lemma_marker_only_in_marker_slots(
    slot: SignalType,
    hour: u32,
    minute: u32,
    day_of_year: u32,
    year_mod_100: u32,
    weekday: u32,
)
    ensures
        signal_value_spec(slot, hour, minute, day_of_year, year_mod_100, weekday)
            == SignalValue::Marker <==> slot is Marker || slot is Position,
{
}

/// Returns the value sent in `slot` at a time with the given fields. A stop
/// announcement, or a parity flag other than the two of the frame, is a defect
/// of the caller and stops the program.
pub fn signal_value(
    slot: SignalType,
    hour: u32,
    minute: u32,
    day_of_year: u32,
    year_mod_100: u32,
    weekday: u32,
) -> (value: SignalValue)
    requires
        resolvable(slot, hour, minute),
    ensures
        value == signal_value_spec(slot, hour, minute, day_of_year, year_mod_100, weekday),
        value == SignalValue::Marker <==> slot is Marker || slot is Position,
{
    match slot {
        SignalType::Marker | SignalType::Position(_) => SignalValue::Marker,
        SignalType::Hour(h) => SignalValue::from(bcd(hour, h)),
        SignalType::Minute(m) => SignalValue::from(bcd(minute, m)),
        SignalType::Day(d) => SignalValue::from(bcd(day_of_year, d)),
        SignalType::Year(y) => SignalValue::from(bcd(year_mod_100, y)),
        SignalType::DayOfWeek(w) => SignalValue::from(bcd(weekday, w)),
        SignalType::LS(_) => SignalValue::Zero,
        SignalType::PA(1) => SignalValue::from(parity(hour)),
        SignalType::PA(2) => SignalValue::from(parity(minute)),
        SignalType::SU(_) => SignalValue::Zero,
        SignalType::Zero => SignalValue::Zero,
        _ => unreached(),
    }
}

/// Returns the last two digits of `year` as the frame carries them.
pub fn year_mod_100(year: i32) -> (r: u32)
    ensures
        r == year_mod_100_spec(year),
        r < 100,
{
    if year >= 0 {
        (year as u32) % 100
    } else {
        let wrapped: i64 = year as i64 + 0x1_0000_0000;
        (wrapped % 100) as u32
    }
}

/// The slot of one second and the value sent in it.
#[derive(Debug, Clone, Copy, PartialEq, Eq, Structural)]
pub struct Signal {
    pub signal_type: SignalType,
    pub signal_value: SignalValue,
}

impl Signal {
    /// What is sent at a time with the calendar fields `t`: the slot of its
    /// second, and the value that the slot has at that hour, minute, day,
    /// year and weekday.
    pub open spec fn at(t: CivilTime) -> Signal {
        let slot = SignalType::at_second(t.second as u8);
        Signal {
            signal_type: slot,
            signal_value: signal_value_spec(
                slot,
                t.hour,
                t.minute,
                t.ordinal,
                year_mod_100_spec(t.year) as u32,
                t.weekday,
            ),
        }
    }

    /// Returns what is sent at a time with the calendar fields `t`.
    pub fn of_civil(t: &CivilTime) -> (signal: Signal)
        requires
            t.wf(),
        ensures
            signal == Signal::at(*t),
    {
        let signal_type = SignalType::from(t.second as u8);
        let signal_value = signal_value(
            signal_type,
            t.hour,
            t.minute,
            t.ordinal,
            year_mod_100(t.year),
            t.weekday,
        );
        Signal { signal_type, signal_value }
    }

    /// Returns what is sent at the point in time `now`.
    pub fn from(now: Timestamp) -> (signal: Signal)
        requires
            now.wf(),
        ensures
            signal == Signal::at(civil_at(now.secs)),
    {
        let t = civil_fields(now.secs);
        Signal::of_civil(&t)
    }
}

/// A minute starts with the marker, whatever the date and the time.
pub proof fn lemma_minute_starts_with_marker(t: CivilTime)
    requires
        t.second == 0,
    ensures
        Signal::at(t).signal_type == SignalType::Marker,
        Signal::at(t).signal_value == SignalValue::Marker,
{
}

/// A point in time on a whole minute sends the marker, whatever its date.
pub proof fn lemma_whole_minute_sends_marker(now: Timestamp)
    requires
        now.secs % 60 == 0,
    ensures
        Signal::at(civil_at(now.secs)).signal_type == SignalType::Marker,
        Signal::at(civil_at(now.secs)).signal_value == SignalValue::Marker,
{
}

/// The frame moves on by one slot a second: the next whole second sends the
/// slot that follows in the table, and after the last slot the first.
pub proof fn lemma_next_second_sends_next_slot(now: Timestamp)
    requires
        now.secs < i64::MAX,
    ensures
        civil_at(now.secs).second < 60,
        Signal::at(civil_at(now.next_whole_second().secs)).signal_type == SignalType::at_second(
            ((civil_at(now.secs).second + 1) % 60) as u8,
        ),
{
    lemma_second_of_minute_advances(now);
}

/// What is sent depends on the whole second alone: two points in time
/// within the same second give the same slot and the same value.
pub proof fn lemma_signal_ignores_nanos(a: Timestamp, b: Timestamp)
    requires
        a.secs == b.secs,
    ensures
        Signal::at(civil_at(a.secs)) == Signal::at(civil_at(b.secs)),
{
}

/// The bits that the frame gives each field carry the field whole: six bits
/// the hour, seven the minute, ten the day of the year, eight the last two
/// digits of the year, three the day of the week.
pub proof fn lemma_frame_carries_fields(t: CivilTime)
    requires
        t.wf(),
    ensures
        bcd_value(t.hour as nat, 6) == t.hour,
        bcd_value(t.minute as nat, 7) == t.minute,
        bcd_value(t.ordinal as nat, 10) == t.ordinal,
        bcd_value(year_mod_100_spec(t.year), 8) == year_mod_100_spec(t.year),
        bcd_value(t.weekday as nat, 3) == t.weekday,
{
    reveal_with_fuel(pow10, 3);
    lemma_bcd_value_recovers(t.hour as nat, 6);
    lemma_bcd_value_recovers(t.minute as nat, 7);
    lemma_bcd_value_recovers(t.ordinal as nat, 10);
    lemma_bcd_value_recovers(year_mod_100_spec(t.year), 8);
    lemma_bcd_value_recovers(t.weekday as nat, 3);
}

} // verus!
