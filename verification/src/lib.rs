//! Encoder for the JJY longwave time code: sixty one-second slots per minute,
//! each carrying a marker or one bit of the current civil time.

use crate::signal::signal_type::SignalType;
use crate::signal::signal_value::SignalValue;
use crate::signal::{year_mod_100, Signal};
use crate::time::{civil_at, civil_fields, duration_from_nanos, Timestamp, MAX_SECS, NANOS_PER_SEC};
use crate::utils::{bcd, bcd_bit_count, bcd_spec, decimal_digit, digit_bit};
use core::time::Duration;
use vstd::pervasive::unreached;
use vstd::prelude::*;

pub mod signal;
pub mod time;
pub mod utils;

verus! {

/// Returns the next whole second after `now`, and how long to wait for it.
/// The nanoseconds of `now` are dropped and one second is added, so the wait
/// is never zero: on a whole second it is one second. Within a leap second the
/// next whole second is the first of the next minute.
pub fn get_next_second(now: Timestamp) -> (r: (Duration, Timestamp))
    requires
        now.wf(),
        now.secs < MAX_SECS,
    ensures
        r.0 == duration_from_nanos(now.nanos_to_next_second() as u64),
        r.1 == now.next_whole_second(),
        r.1.wf(),
{
    let wait: u32 = if now.nanos < NANOS_PER_SEC {
        NANOS_PER_SEC - now.nanos
    } else {
        2 * NANOS_PER_SEC - now.nanos
    };
    let next_second = Timestamp { secs: now.secs + 1, nanos: 0 };
    (Duration::from_nanos(wait as u64), next_second)
}

/// The two highest bits of a two-digit field are clear while the field is
/// below 40, and the highest while it is below 80.
proof fn lemma_high_bits_clear(n: nat)
    requires
        n < 80,
    ensures
        bcd_spec(n, 7) == 0,
        n < 40 ==> bcd_spec(n, 6) == 0,
        bcd_bit_count(n, 8) == bcd_bit_count(n, 7),
        n < 40 ==> bcd_bit_count(n, 8) == bcd_bit_count(n, 6),
{
    reveal_with_fuel(bcd_bit_count, 3);
    reveal_with_fuel(decimal_digit, 2);
    assert(bcd_spec(n, 7) == digit_bit(n / 10, 3));
    assert(bcd_spec(n, 6) == digit_bit(n / 10, 2));
}

/// Returns the slot of the second of `now` and the value sent in it.
pub fn get_signal(now: Timestamp) -> (r: (SignalType, SignalValue))
    requires
        now.wf(),
    ensures
        r.0 == Signal::at(civil_at(now.secs)).signal_type,
        r.1 == Signal::at(civil_at(now.secs)).signal_value,
{
    let t = civil_fields(now.secs);
    let signal_type = SignalType::from(t.second as u8);
    proof {
        reveal_with_fuel(bcd_bit_count, 9);
        lemma_high_bits_clear(t.hour as nat);
        lemma_high_bits_clear(t.minute as nat);
    }
    let signal_value = match signal_type {
        SignalType::Marker | SignalType::Position(_) => SignalValue::Marker,
        SignalType::Hour(h) => SignalValue::from(bcd(t.hour, h)),
        SignalType::Minute(m) => SignalValue::from(bcd(t.minute, m)),
        SignalType::Day(d) => SignalValue::from(bcd(t.ordinal, d)),
        SignalType::Year(y) => SignalValue::from(bcd(year_mod_100(t.year), y)),
        SignalType::DayOfWeek(w) => SignalValue::from(bcd(t.weekday, w)),
        SignalType::LS(_) => SignalValue::Zero,
        SignalType::PA(1) => SignalValue::from(
            (bcd(t.hour, 5) + bcd(t.hour, 4) + bcd(t.hour, 3) + bcd(t.hour, 2) + bcd(t.hour, 1)
                + bcd(t.hour, 0)) % 2,
        ),
        SignalType::PA(2) => SignalValue::from(
            (bcd(t.minute, 6) + bcd(t.minute, 5) + bcd(t.minute, 4) + bcd(t.minute, 3) + bcd(
                t.minute,
                2,
            ) + bcd(t.minute, 1) + bcd(t.minute, 0)) % 2,
        ),
        SignalType::SU(_) => SignalValue::Zero,
        SignalType::Zero => SignalValue::Zero,
        _ => unreached(),
    };
    (signal_type, signal_value)
}

} // verus!
