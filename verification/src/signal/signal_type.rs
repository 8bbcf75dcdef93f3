//! The kind of each of the sixty slots of a minute.

use crate::utils::{bcd_weight, pow10};
use vstd::prelude::*;
use vstd::string::StringExecFns;

verus! {

/// What a one-second slot of the frame stands for. The fields sent in
/// binary-coded decimal (hour, minute, day, year, day of week) carry the index
/// of their bit, counted from the lowest.
#[derive(Debug, Clone, Copy, PartialEq, Eq, Structural)]
pub enum SignalType {
    /// Marker at the start of the minute (M).
    Marker,
    /// Position marker (P1 to P5, then P0 at the end of the minute).
    Position(u8),
    /// Bit of the hour.
    Hour(u8),
    /// Bit of the minute.
    Minute(u8),
    /// Bit of the day of the year.
    Day(u8),
    /// Bit of the last two digits of the year.
    Year(u8),
    /// Bit of the day of the week, Sunday being 0.
    DayOfWeek(u8),
    /// Leap second announcement (LS1, LS2).
    LS(u8),
    /// Parity of the hour (PA1) or of the minute (PA2).
    PA(u8),
    /// Spare bit, kept for summer time (SU1, SU2).
    SU(u8),
    /// Announcement that the service will stop (ST1 to ST6).
    ST(u8),
    /// Bit that is always zero.
    Zero,
}

impl SignalType {
    /// The index lies in the range that its kind of slot has.
    pub open spec fn wf(self) -> bool {
        match self {
            SignalType::Marker => true,
            SignalType::Position(p) => p <= 5,
            SignalType::Hour(h) => h <= 5,
            SignalType::Minute(m) => m <= 6,
            SignalType::Day(d) => d <= 9,
            SignalType::Year(y) => y <= 7,
            SignalType::DayOfWeek(w) => w <= 2,
            SignalType::LS(l) => 1 <= l <= 2,
            SignalType::PA(p) => 1 <= p <= 2,
            SignalType::SU(s) => 1 <= s <= 2,
            SignalType::ST(s) => 1 <= s <= 6,
            SignalType::Zero => true,
        }
    }

    /// The second of the minute in which the slot is sent. The zero bit fills
    /// several seconds and a stop announcement none: they get 60.
    pub open spec fn second(self) -> u8 {
        match self {
            SignalType::Marker => 0,
            SignalType::Position(p) => if p == 0 {
                59
            } else {
                (10 * p - 1) as u8
            },
            SignalType::Minute(m) => if m <= 3 {
                (8 - m) as u8
            } else {
                (7 - m) as u8
            },
            SignalType::Hour(h) => if h <= 3 {
                (18 - h) as u8
            } else {
                (17 - h) as u8
            },
            SignalType::Day(d) => if d <= 3 {
                (33 - d) as u8
            } else if d <= 7 {
                (32 - d) as u8
            } else {
                (31 - d) as u8
            },
            SignalType::PA(p) => (35 + p) as u8,
            SignalType::SU(s) => if s == 1 {
                38
            } else {
                40
            },
            SignalType::Year(y) => (48 - y) as u8,
            SignalType::DayOfWeek(w) => (52 - w) as u8,
            SignalType::LS(l) => (52 + l) as u8,
            SignalType::ST(_) | SignalType::Zero => 60,
        }
    }

    /// The slot has a label: a bit of a field has one of the ten weights.
    pub open spec fn has_label(self) -> bool {
        match self {
            SignalType::Hour(i)
            | SignalType::Minute(i)
            | SignalType::Day(i)
            | SignalType::Year(i)
            | SignalType::DayOfWeek(i) => i < 10,
            _ => true,
        }
    }

    /// The label of the slot: a marker by its name, a bit of a field by its
    /// weight and the field's letter, a flag by its name and number.
    pub open spec fn label_spec(self) -> Seq<char> {
        match self {
            SignalType::Marker => seq!['M'],
            SignalType::Position(p) => seq!['P'] + decimal_text(p as nat),
            SignalType::Hour(h) => decimal_text(bcd_weight(h as nat)) + seq!['h'],
            SignalType::Minute(m) => decimal_text(bcd_weight(m as nat)) + seq!['m'],
            SignalType::Day(d) => decimal_text(bcd_weight(d as nat)) + seq!['d'],
            SignalType::Year(y) => decimal_text(bcd_weight(y as nat)) + seq!['y'],
            SignalType::DayOfWeek(w) => decimal_text(bcd_weight(w as nat)) + seq!['w'],
            SignalType::LS(l) => seq!['L', 'S'] + decimal_text(l as nat),
            SignalType::PA(p) => seq!['P', 'A'] + decimal_text(p as nat),
            SignalType::SU(s) => seq!['S', 'U'] + decimal_text(s as nat),
            SignalType::ST(s) => seq!['S', 'T'] + decimal_text(s as nat),
            SignalType::Zero => seq!['0'],
        }
    }

    /// Returns the label of the slot, such as `M`, `P1`, `40m`, `200d`, `PA2`.
    pub fn label(&self) -> (s: String)
        requires
            self.has_label(),
        ensures
            s@ == self.label_spec(),
    {
        proof {
            reveal_strlit("M");
            reveal_strlit("P");
            reveal_strlit("h");
            reveal_strlit("m");
            reveal_strlit("d");
            reveal_strlit("y");
            reveal_strlit("w");
            reveal_strlit("LS");
            reveal_strlit("PA");
            reveal_strlit("SU");
            reveal_strlit("ST");
            reveal_strlit("0");
        }
        let s = match *self {
            SignalType::Marker => named("M", None),
            SignalType::Position(p) => named("P", Some(p)),
            SignalType::Hour(h) => weighted(h, "h"),
            SignalType::Minute(m) => weighted(m, "m"),
            SignalType::Day(d) => weighted(d, "d"),
            SignalType::Year(y) => weighted(y, "y"),
            SignalType::DayOfWeek(w) => weighted(w, "w"),
            SignalType::LS(l) => named("LS", Some(l)),
            SignalType::PA(p) => named("PA", Some(p)),
            SignalType::SU(s) => named("SU", Some(s)),
            SignalType::ST(s) => named("ST", Some(s)),
            SignalType::Zero => named("0", None),
        };
        assert(s@ =~= self.label_spec());
        s
    }

    /// The slot sent at second `n` of a minute in normal operation. A number
    /// above 59 is no second of a minute and gives the zero bit.
    pub open spec fn at_second(n: u8) -> SignalType {
        if n == 0 {
            SignalType::Marker
        } else if n == 59 {
            SignalType::Position(0)
        } else if n < 60 && n % 10 == 9 {
            SignalType::Position((n / 10 + 1) as u8)
        } else if 1 <= n <= 3 {
            SignalType::Minute((7 - n) as u8)
        } else if 5 <= n <= 8 {
            SignalType::Minute((8 - n) as u8)
        } else if 12 <= n <= 13 {
            SignalType::Hour((17 - n) as u8)
        } else if 15 <= n <= 18 {
            SignalType::Hour((18 - n) as u8)
        } else if 22 <= n <= 23 {
            SignalType::Day((31 - n) as u8)
        } else if 25 <= n <= 28 {
            SignalType::Day((32 - n) as u8)
        } else if 30 <= n <= 33 {
            SignalType::Day((33 - n) as u8)
        } else if 36 <= n <= 37 {
            SignalType::PA((n - 35) as u8)
        } else if n == 38 {
            SignalType::SU(1)
        } else if n == 40 {
            SignalType::SU(2)
        } else if 41 <= n <= 48 {
            SignalType::Year((48 - n) as u8)
        } else if 50 <= n <= 52 {
            SignalType::DayOfWeek((52 - n) as u8)
        } else if 53 <= n <= 54 {
            SignalType::LS((n - 52) as u8)
        } else {
            SignalType::Zero
        }
    }
}

/// Every slot of the table is well formed and has a label, and none is a
/// stop announcement.
pub proof fn lemma_table_is_well_formed(n: u8)
    ensures
        SignalType::at_second(n).wf(),
        SignalType::at_second(n).has_label(),
        !(SignalType::at_second(n) is ST),
{
}

/// Each marker, each bit of a field and each flag is sent in exactly one
/// second of the minute: a well-formed slot other than the zero bit and the
/// stop announcements stands in the table at its own second and nowhere else.
pub proof fn lemma_slot_sent_once(slot: SignalType, n: u8)
    requires
        slot.wf(),
        !(slot is ST),
        !(slot is Zero),
    ensures
        slot.second() < 60,
        SignalType::at_second(slot.second()) == slot,
        SignalType::at_second(n) == slot ==> n == slot.second(),
{
}

impl vstd::std_specs::convert::FromSpecImpl<u8> for SignalType {
    open spec fn obeys_from_spec() -> bool {
        true
    }

    open spec fn from_spec(n: u8) -> SignalType {
        SignalType::at_second(n)
    }
}

impl From<u8> for SignalType {
    /// The slot sent at second `n` of a minute.
    fn from(n: u8) -> (slot: SignalType)
        ensures
            slot == SignalType::at_second(n),
            slot.wf(),
            !(slot is ST),
    {
        match n {
            0 => SignalType::Marker,
            1..=3 => SignalType::Minute(7 - n),
            4 => SignalType::Zero,
            5..=8 => SignalType::Minute(8 - n),
            9 => SignalType::Position(1),
            10..=11 => SignalType::Zero,
            12..=13 => SignalType::Hour(17 - n),
            14 => SignalType::Zero,
            15..=18 => SignalType::Hour(18 - n),
            19 => SignalType::Position(2),
            20..=21 => SignalType::Zero,
            22..=23 => SignalType::Day(31 - n),
            24 => SignalType::Zero,
            25..=28 => SignalType::Day(32 - n),
            29 => SignalType::Position(3),
            30..=33 => SignalType::Day(33 - n),
            34..=35 => SignalType::Zero,
            36..=37 => SignalType::PA(n - 35),
            38 => SignalType::SU(1),
            39 => SignalType::Position(4),
            40 => SignalType::SU(2),
            41..=48 => SignalType::Year(48 - n),
            49 => SignalType::Position(5),
            50..=52 => SignalType::DayOfWeek(52 - n),
            53..=54 => SignalType::LS(n - 52),
            55..=58 => SignalType::Zero,
            59 => SignalType::Position(0),
            _ => SignalType::Zero,
        }
    }
}

/// The character that stands for the decimal digit `d`.
pub open spec fn digit_char(d: nat) -> char {
    if d == 0 {
        '0'
    } else if d == 1 {
        '1'
    } else if d == 2 {
        '2'
    } else if d == 3 {
        '3'
    } else if d == 4 {
        '4'
    } else if d == 5 {
        '5'
    } else if d == 6 {
        '6'
    } else if d == 7 {
        '7'
    } else if d == 8 {
        '8'
    } else {
        '9'
    }
}

/// `n` written in decimal, without leading zeros.
pub open spec fn decimal_text(n: nat) -> Seq<char>
    decreases n,
{
    if n < 10 {
        seq![digit_char(n)]
    } else {
        decimal_text(n / 10).push(digit_char(n % 10))
    }
}

/// The text of one decimal digit.
fn digit_text(d: u8) -> (s: &'static str)
    requires
        d < 10,
    ensures
        s@ == seq![digit_char(d as nat)],
{
    proof {
        reveal_strlit("0");
        reveal_strlit("1");
        reveal_strlit("2");
        reveal_strlit("3");
        reveal_strlit("4");
        reveal_strlit("5");
        reveal_strlit("6");
        reveal_strlit("7");
        reveal_strlit("8");
        reveal_strlit("9");
    }
    let s: &'static str = match d {
        0 => "0",
        1 => "1",
        2 => "2",
        3 => "3",
        4 => "4",
        5 => "5",
        6 => "6",
        7 => "7",
        8 => "8",
        _ => "9",
    };
    assert(s@ =~= seq![digit_char(d as nat)]);
    s
}

/// Appends `n` in decimal to `s`.
fn push_decimal(s: &mut String, n: u8)
    ensures
        final(s)@ == old(s)@ + decimal_text(n as nat),
{
    proof {
        reveal_with_fuel(decimal_text, 3);
    }
    if n >= 100 {
        s.append(digit_text(n / 100));
    }
    if n >= 10 {
        s.append(digit_text(n / 10 % 10));
    }
    s.append(digit_text(n % 10));
    assert(final(s)@ =~= old(s)@ + decimal_text(n as nat));
}

/// The weight of bit `i`, for the ten bits that a field of the frame can have.
fn weight(i: u8) -> (w: u8)
    requires
        i < 10,
    ensures
        w == bcd_weight(i as nat),
{
    proof {
        reveal_with_fuel(pow10, 3);
    }
    let table: [u8; 10] = [1, 2, 4, 8, 10, 20, 40, 80, 100, 200];
    table[i as usize]
}

/// The text of a number that may be absent.
pub open spec fn number_text(number: Option<u8>) -> Seq<char> {
    match number {
        Some(n) => decimal_text(n as nat),
        None => Seq::empty(),
    }
}

/// A name, followed by a number where the slot has one.
fn named(name: &str, number: Option<u8>) -> (s: String)
    ensures
        s@ == name@ + number_text(number),
{
    let mut s = String::from_str(name);
    if let Some(n) = number {
        push_decimal(&mut s, n);
    }
    assert(s@ =~= name@ + number_text(number));
    s
}

/// The weight of bit `i`, followed by the letter of the field.
fn weighted(i: u8, unit: &str) -> (s: String)
    requires
        i < 10,
    ensures
        s@ == decimal_text(bcd_weight(i as nat)) + unit@,
{
    let mut s = String::from_str("");
    proof {
        reveal_strlit("");
    }
    push_decimal(&mut s, weight(i));
    s.append(unit);
    assert(s@ =~= decimal_text(bcd_weight(i as nat)) + unit@);
    s
}

} // verus!
