//! The value sent in a slot, and how long its pulse lasts.

use crate::time::duration_from_millis;
use core::time::Duration;
use vstd::pervasive::runtime_assert;
use vstd::prelude::*;
use vstd::string::StringExecFns;

verus! {

/// The value sent in one slot: a marker, or a bit that is zero or one.
#[derive(Debug, Clone, Copy, PartialEq, Eq, Structural)]
pub enum SignalValue {
    Marker,
    Zero,
    One,
}

impl SignalValue {
    /// The length of the pulse at full power, in milliseconds.
    pub open spec fn pulse_millis(self) -> u64 {
        match self {
            SignalValue::Marker => 200,
            SignalValue::Zero => 800,
            SignalValue::One => 500,
        }
    }

    /// The value that sends the bit `n`.
    pub open spec fn of_bit(n: nat) -> SignalValue {
        if n == 0 {
            SignalValue::Zero
        } else {
            SignalValue::One
        }
    }

    /// The label of the value: `M`, `0` or `1`.
    pub open spec fn label_spec(self) -> Seq<char> {
        match self {
            SignalValue::Marker => seq!['M'],
            SignalValue::Zero => seq!['0'],
            SignalValue::One => seq!['1'],
        }
    }

    /// Returns how long the carrier stays at full power within the slot:
    /// 200 ms for a marker, 800 ms for a zero, 500 ms for a one.
    pub fn to_duration(self) -> (d: Duration)
        ensures
            d == duration_from_millis(self.pulse_millis()),
    {
        match self {
            SignalValue::Marker => Duration::from_millis(200),
            SignalValue::Zero => Duration::from_millis(800),
            SignalValue::One => Duration::from_millis(500),
        }
    }

    /// Returns the value that sends the bit `n`. A number that is no bit is a
    /// defect of the caller, and stops the program.
    pub fn from(n: u8) -> (v: SignalValue)
        requires
            n <= 1,
        ensures
            v == SignalValue::of_bit(n as nat),
            v != SignalValue::Marker,
    {
        runtime_assert(n <= 1);
        if n == 0 {
            SignalValue::Zero
        } else {
            SignalValue::One
        }
    }

    /// Returns the label of the value.
    pub fn label(&self) -> (s: String)
        ensures
            s@ == self.label_spec(),
    {
        proof {
            reveal_strlit("M");
            reveal_strlit("0");
            reveal_strlit("1");
        }
        let s = match self {
            SignalValue::Marker => String::from_str("M"),
            SignalValue::Zero => String::from_str("0"),
            SignalValue::One => String::from_str("1"),
        };
        assert(s@ =~= self.label_spec());
        s
    }
}

} // verus!
