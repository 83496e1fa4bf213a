use vstd::prelude::*;
use vstd::string::StringExecFns;

verus! {

/// A wall-clock time of day with minute precision, zone-naive.
#[derive(Clone, Copy, Debug, PartialEq, Eq, Hash, Structural)]
pub struct ClockTime {
    /// Hour of the day, `0..=23`.
    pub hour: u8,
    /// Minute of the hour, `0..=59`.
    pub minute: u8,
}

impl ClockTime {
    /// A valid 24-hour wall-clock reading.
    pub open spec fn wf(self) -> bool {
        self.hour <= 23 && self.minute <= 59
    }

    /// Minutes since midnight: the key by which bells are ordered and searched.
    pub open spec fn spec_minutes(self) -> int {
        self.hour * 60 + self.minute
    }

    /// Build a time from separate hour and minute values, rejecting
    /// out-of-range fields.
    pub fn new(hour: u32, minute: u32) -> (r: Option<ClockTime>)
        ensures
            r is Some <==> (hour <= 23 && minute <= 59),
            r matches Some(t) ==> t == (ClockTime { hour: hour as u8, minute: minute as u8 })
                && t.wf(),
    {
        if hour <= 23 && minute <= 59 {
            Some(ClockTime { hour: hour as u8, minute: minute as u8 })
        } else {
            None
        }
    }

    /// Whether this time is at or before `other`.
    pub fn le(self, other: ClockTime) -> (r: bool)
        ensures
            r == (self.spec_minutes() <= other.spec_minutes()),
    {
        (self.hour as u32) * 60 + (self.minute as u32) <= (other.hour as u32) * 60 + (
        other.minute as u32)
    }

    /// Whether this time is at or after `other`.
    pub fn ge(self, other: ClockTime) -> (r: bool)
        ensures
            r == (self.spec_minutes() >= other.spec_minutes()),
    {
        other.le(self)
    }

    /// Render this time in 12-hour form, such as `9:05 AM` or `12:00 PM`.
    pub fn format_12h(self) -> (r: String)
        requires
            self.wf(),
        ensures
            r@ == spec_format_12h(self),
    {
        let mut s = String::new();
        let rem: u8 = self.hour % 12;
        let h12: u8 = if rem == 0 {
            12
        } else {
            rem
        };
        if h12 >= 10 {
            s.append("1");
            append_digit(&mut s, h12 - 10);
        } else {
            append_digit(&mut s, h12);
        }
        s.append(":");
        append_digit(&mut s, self.minute / 10);
        append_digit(&mut s, self.minute % 10);
        if self.hour < 12 {
            s.append(" AM");
        } else {
            s.append(" PM");
        }
        proof {
            reveal_strlit("1");
            reveal_strlit(":");
            reveal_strlit(" AM");
            reveal_strlit(" PM");
            assert(s@ =~= spec_format_12h(self));
        }
        s
    }
}

/// The character for a single decimal digit.
pub open spec fn spec_digit(d: int) -> char {
    if d == 0 {
        '0'
    } else if d == 1 {
        '1'
    } else if d == 2 {
        '2'
    } else if d == 3 {
        '3'
    } else if d == 4 {
        '4'
    } else if d == 5 {
        '5'
    } else if d == 6 {
        '6'
    } else if d == 7 {
        '7'
    } else if d == 8 {
        '8'
    } else {
        '9'
    }
}

/// A number below 100 as exactly two decimal digits, zero-padded.
pub open spec fn spec_two_digits(n: int) -> Seq<char> {
    seq![spec_digit(n / 10), spec_digit(n % 10)]
}

/// The hour as displayed on a 12-hour clock: midnight and noon read 12.
pub open spec fn spec_hour_12(hour: int) -> int {
    if hour % 12 == 0 {
        12
    } else {
        hour % 12
    }
}

/// The 12-hour rendering of a time: hour without a leading zero, a colon,
/// a zero-padded minute, then a space and `AM` or `PM`.
pub open spec fn spec_format_12h(t: ClockTime) -> Seq<char> {
    let h = spec_hour_12(t.hour as int);
    let hour_digits = if h >= 10 {
        seq!['1', spec_digit(h - 10)]
    } else {
        seq![spec_digit(h)]
    };
    let suffix = if t.hour < 12 {
        seq![' ', 'A', 'M']
    } else {
        seq![' ', 'P', 'M']
    };
    hour_digits + seq![':'] + spec_two_digits(t.minute as int) + suffix
}

/// Append one decimal digit to a string.
fn append_digit(s: &mut String, d: u8)
    requires
        d <= 9,
    ensures
        final(s)@ == old(s)@ + seq![spec_digit(d as int)],
{
    match d {
        0 => s.append("0"),
        1 => s.append("1"),
        2 => s.append("2"),
        3 => s.append("3"),
        4 => s.append("4"),
        5 => s.append("5"),
        6 => s.append("6"),
        7 => s.append("7"),
        8 => s.append("8"),
        _ => s.append("9"),
    }
    proof {
        reveal_strlit("0");
        reveal_strlit("1");
        reveal_strlit("2");
        reveal_strlit("3");
        reveal_strlit("4");
        reveal_strlit("5");
        reveal_strlit("6");
        reveal_strlit("7");
        reveal_strlit("8");
        reveal_strlit("9");
        assert(s@ =~= old(s)@ + seq![spec_digit(d as int)]);
    }
}

} // verus!
