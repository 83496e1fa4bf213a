use vstd::prelude::*;
use vstd::arithmetic::div_mod::{lemma_fundamental_div_mod, lemma_mod_multiples_basic};
use vstd::arithmetic::mul::{lemma_mul_is_commutative, lemma_mul_unary_negation};

verus! {

/// A calendar date, held as plain year, month and day values.
///
/// The year range matches what the underlying calendar library can represent,
/// so every well-formed `Date` can be handed to it.
#[derive(Clone, Copy, Debug, PartialEq, Eq, Hash, Structural)]
pub struct Date {
    /// Astronomical year number (year 0 is 1 BCE).
    pub year: i32,
    /// Month of the year, `1..=12`.
    pub month: u8,
    /// Day of the month, `1..=31`, within the month's length.
    pub day: u8,
}

/// A date together with a wall-clock time, zone-naive.
#[derive(Clone, Copy, Debug, PartialEq, Eq, Hash, Structural)]
pub struct DateTime {
    /// The calendar date.
    pub date: Date,
    /// The time of day.
    pub time: crate::clock::ClockTime,
}

/// Leap years in the proleptic Gregorian calendar.
pub open spec fn spec_is_leap_year(y: int) -> bool {
    (y % 4 == 0 && y % 100 != 0) || y % 400 == 0
}

/// The number of days in a month of a given year.
pub open spec fn spec_days_in_month(y: int, m: int) -> int {
    if m == 2 {
        if spec_is_leap_year(y) {
            29
        } else {
            28
        }
    } else if m == 4 || m == 6 || m == 9 || m == 11 {
        30
    } else {
        31
    }
}

/// The smallest year a `Date` can hold.
pub const MIN_YEAR: i32 = -262143;

/// The largest year a `Date` can hold.
pub const MAX_YEAR: i32 = 262142;

/// Whether the three fields name a real calendar date in the supported range.
pub open spec fn spec_valid_date(y: int, m: int, d: int) -> bool {
    &&& MIN_YEAR <= y <= MAX_YEAR
    &&& 1 <= m <= 12
    &&& 1 <= d <= spec_days_in_month(y, m)
}

/// Divisibility by a positive number is unchanged by negation.
proof fn lemma_neg_mod_zero(y: int, n: int)
    requires
        n > 0,
    ensures
        (y % n == 0) <==> ((-y) % n == 0),
{
    if y % n == 0 {
        lemma_fundamental_div_mod(y, n);
        lemma_mul_is_commutative(n, y / n);
        lemma_mul_unary_negation(y / n, n);
        assert(-y == (-(y / n)) * n);
        lemma_mod_multiples_basic(-(y / n), n);
    }
    if (-y) % n == 0 {
        lemma_fundamental_div_mod(-y, n);
        lemma_mul_is_commutative(n, (-y) / n);
        lemma_mul_unary_negation((-y) / n, n);
        assert(y == (-((-y) / n)) * n);
        lemma_mod_multiples_basic(-((-y) / n), n);
    }
}

/// Whether a year is a leap year.
pub fn is_leap_year(year: i32) -> (r: bool)
    requires
        MIN_YEAR <= year <= MAX_YEAR,
    ensures
        r == spec_is_leap_year(year as int),
{
    let m: i32 = if year >= 0 {
        year
    } else {
        -year
    };
    proof {
        lemma_neg_mod_zero(year as int, 4);
        lemma_neg_mod_zero(year as int, 100);
        lemma_neg_mod_zero(year as int, 400);
    }
    (m % 4 == 0 && m % 100 != 0) || m % 400 == 0
}

/// The number of days in a month.
pub fn days_in_month(year: i32, month: u8) -> (r: u8)
    requires
        MIN_YEAR <= year <= MAX_YEAR,
        1 <= month <= 12,
    ensures
        r as int == spec_days_in_month(year as int, month as int),
{
    if month == 2 {
        if is_leap_year(year) {
            29
        } else {
            28
        }
    } else if month == 4 || month == 6 || month == 9 || month == 11 {
        30
    } else {
        31
    }
}

impl Date {
    /// A real calendar date in the supported range.
    pub open spec fn wf(self) -> bool {
        spec_valid_date(self.year as int, self.month as int, self.day as int)
    }

    /// Build a date from separate year, month and day values, rejecting
    /// anything that does not name a real calendar date.
    pub fn new(year: i32, month: u32, day: u32) -> (r: Option<Date>)
        ensures
            r is Some <==> spec_valid_date(year as int, month as int, day as int),
            r matches Some(d) ==> d == (Date {
                year,
                month: month as u8,
                day: day as u8,
            }) && d.wf(),
    {
        if year < MIN_YEAR || year > MAX_YEAR {
            return None;
        }
        if month < 1 || month > 12 {
            return None;
        }
        let dim = days_in_month(year, month as u8);
        if day < 1 || day > dim as u32 {
            return None;
        }
        Some(Date { year, month: month as u8, day: day as u8 })
    }
}

impl DateTime {
    /// A real date with a valid time of day.
    pub open spec fn wf(self) -> bool {
        self.date.wf() && self.time.wf()
    }

    /// Pair a date with a time of day.
    pub fn new(date: Date, time: crate::clock::ClockTime) -> (r: DateTime)
        ensures
            r == (DateTime { date, time }),
    {
        DateTime { date, time }
    }
}

/// The ISO 8601 week number of a date, `1..=53`.
pub uninterp spec fn iso_week_of(year: int, month: int, day: int) -> int;

/// The day of the week of a date, counted from Monday = 0 to Sunday = 6.
pub uninterp spec fn weekday_of(year: int, month: int, day: int) -> int;

/// Relies on `chrono::NaiveDate::from_ymd_opt`, `chrono::Datelike::iso_week`
/// and `chrono::IsoWeek::week`: the ISO 8601 week number of a valid date,
/// between 1 and 53, a function of the date alone.
#[verifier::external_body]
pub(crate) fn iso_week_number(date: &Date) -> (r: u32)
    requires
        date.wf(),
    ensures
        1 <= r <= 53,
        r as int == iso_week_of(date.year as int, date.month as int, date.day as int),
{
    match chrono::NaiveDate::from_ymd_opt(date.year, date.month as u32, date.day as u32) {
        Some(d) => chrono::Datelike::iso_week(&d).week(),
        None => 1,
    }
}

/// Relies on `chrono::NaiveDate::from_ymd_opt`, `chrono::Datelike::weekday`
/// and `chrono::Weekday::num_days_from_monday`: the day of the week of a
/// valid date, from Monday = 0 to Sunday = 6, a function of the date alone.
#[verifier::external_body]
pub(crate) fn weekday_from_monday(date: &Date) -> (r: usize)
    requires
        date.wf(),
    ensures
        r <= 6,
        r as int == weekday_of(date.year as int, date.month as int, date.day as int),
{
    match chrono::NaiveDate::from_ymd_opt(date.year, date.month as u32, date.day as u32) {
        Some(d) => chrono::Datelike::weekday(&d).num_days_from_monday() as usize,
        None => 0,
    }
}

} // verus!
