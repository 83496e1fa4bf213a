//! Core data model and time-query engine for a school's weekly bell schedule.
//!
//! A [`Subjective`] aggregate owns one [`school::School`] — an ordered list of
//! rotating week variants, each holding one bell list per weekday — together
//! with the [`subjects::Subject`]s its class bells refer to. The query engine
//! picks the active week variant from a calendar date, resolves the weekday,
//! and searches a day's ordered bells relative to a point in time.

use vstd::prelude::*;
use vstd::arithmetic::div_mod::{lemma_mod_bound, lemma_mod_multiples_vanish};
use vstd::arithmetic::mul::lemma_mul_is_commutative;
use vstd::slice::slice_subrange;

use calendar::{iso_week_of, weekday_of, iso_week_number, weekday_from_monday, Date, DateTime};
use clock::ClockTime;
use school::bells::BellTime;
use school::{Day, School};
use subjects::Subject;
use uid::Uid;

/// Calendar dates and the week-variant arithmetic inputs derived from them.
pub mod calendar;
/// Wall-clock times of day.
pub mod clock;
/// Colors used for subjects.
pub mod color;
/// School related structures.
pub mod school;
/// Subject related structures.
pub mod subjects;
/// Opaque unique identifiers.
pub mod uid;

verus! {

/// Errors that can occur when loading data from disk.
///
/// Each variant carries the offending path or the underlying cause as text.
/// Loading is fatal as a whole: a caller that receives any of these must
/// treat the aggregate as unavailable.
#[derive(Debug, Clone, PartialEq)]
pub enum LoadDataError {
    /// The data file was not found at the expected path.
    DataFileNotFound(String),
    /// The data file could not be read.
    DataFileReadError(String),
    /// The data file could not be parsed.
    DataFileParseError(String),
}

/// Errors that can occur when retrieving bells.
#[derive(Debug, Clone, Copy, PartialEq, Eq, Hash, Structural)]
pub enum FindBellError {
    /// The weekday index, counted from Monday = 0, is out of range for the
    /// week's day list.
    WeekdayOutOfRange(usize),
    /// No bell was found.
    NoBellFound,
}

/// Structure of a data file: one school and the subjects its bells refer to.
#[derive(Debug, Clone, PartialEq)]
pub struct Subjective {
    /// School data.
    pub school: School,
    /// Subject data.
    pub subjects: Vec<Subject>,
}

/// The ISO 8601 week number of a date.
pub open spec fn spec_iso_week(date: Date) -> int {
    iso_week_of(date.year as int, date.month as int, date.day as int)
}

/// The weekday index of a date, counted from Monday = 0 to Sunday = 6.
pub open spec fn spec_weekday_index(date: Date) -> int {
    weekday_of(date.year as int, date.month as int, date.day as int)
}

/// The index of the active week variant:
/// `(week_number + variant_offset) mod variants`.
pub open spec fn spec_current_variant(week_number: int, variant_offset: int, variants: int) -> int
    recommends
        variants >= 1,
{
    (week_number + variant_offset) % variants
}

/// The variant rotation is insensitive to whole cycles: adding any multiple
/// of the variant count to the offset picks the same variant, and with a
/// single variant the first is always picked.
pub proof fn lemma_current_variant_offset_period(
    week_number: int,
    variant_offset: int,
    variants: int,
    k: int,
)
    requires
        variants >= 1,
    ensures
        spec_current_variant(week_number, variant_offset + k * variants, variants)
            == spec_current_variant(week_number, variant_offset, variants),
        spec_current_variant(week_number, variant_offset, 1) == 0,
{
    lemma_mod_multiples_vanish(k, week_number + variant_offset, variants);
    lemma_mul_is_commutative(k, variants);
    assert(week_number + (variant_offset + k * variants) == variants * k + (week_number
        + variant_offset));
    lemma_mod_bound(week_number + variant_offset, 1);
}

/// Whether a bell is an endpoint candidate for a search forward from `time`:
/// it must be enabled and ring at or after `time`.
pub open spec fn bell_matches_after(b: BellTime, time: ClockTime) -> bool {
    b.enabled && b.time.spec_minutes() >= time.spec_minutes()
}

/// Whether a bell is an endpoint candidate for a search backward from
/// `time`: it must be enabled and ring at or before `time`.
pub open spec fn bell_matches_before(b: BellTime, time: ClockTime) -> bool {
    b.enabled && b.time.spec_minutes() <= time.spec_minutes()
}

/// A day's bells are sorted ascending by time. The search operations rely on
/// this to make their first find the earliest; they do not enforce it.
pub open spec fn spec_day_sorted(day: Seq<BellTime>) -> bool {
    forall|i: int, j: int|
        0 <= i < j < day.len() ==> day[i].time.spec_minutes() <= day[j].time.spec_minutes()
}

/// On a sorted day, the first bell in storage order that is enabled and at
/// or after the query time is also the earliest such bell, and earlier in
/// storage than every other candidate — equal times resolve to stored order.
pub proof fn lemma_first_match_is_earliest(day: Seq<BellTime>, time: ClockTime, i: int)
    requires
        spec_day_sorted(day),
        0 <= i < day.len(),
        bell_matches_after(day[i], time),
        forall|j: int| 0 <= j < i ==> !bell_matches_after(day[j], time),
    ensures
        forall|j: int|
            0 <= j < day.len() && bell_matches_after(day[j], time) ==> i <= j && day[i]
                .time.spec_minutes() <= day[j].time.spec_minutes(),
{
}

/// On a sorted day, the last bell in storage order that is enabled and at or
/// before the query time is also the latest such bell, and later in storage
/// than every other candidate — equal times resolve to stored order.
pub proof fn lemma_last_match_is_latest(day: Seq<BellTime>, time: ClockTime, i: int)
    requires
        spec_day_sorted(day),
        0 <= i < day.len(),
        bell_matches_before(day[i], time),
        forall|j: int| i < j < day.len() ==> !bell_matches_before(day[j], time),
    ensures
        forall|j: int|
            0 <= j < day.len() && bell_matches_before(day[j], time) ==> j <= i && day[j]
                .time.spec_minutes() <= day[i].time.spec_minutes(),
{
}

/// Get the current variant for a given date, variant offset, and number of
/// variants.
pub fn get_current_variant(date: &Date, variant_offset: usize, variants: usize) -> (r: usize)
    requires
        date.wf(),
        variants >= 1,
    ensures
        r < variants,
        r as int == spec_current_variant(spec_iso_week(*date), variant_offset as int,
            variants as int),
{
    let week_number = iso_week_number(date);
    let wide: u128 = (week_number as u128 + variant_offset as u128) % (variants as u128);
    wide as usize
}

impl Subjective {
    /// Create a new data structure from a school and its subjects.
    pub fn new(school: School, subjects: Vec<Subject>) -> (r: Subjective)
        ensures
            r.school == school,
            r.subjects == subjects,
    {
        Subjective { school, subjects }
    }

    /// Create a new data structure from a school and an empty subject list.
    pub fn from_school(school: School) -> (r: Subjective)
        ensures
            r.school == school,
            r.subjects@.len() == 0,
    {
        Subjective { school, subjects: Vec::new() }
    }

    /// The index of the week variant active on `date`.
    pub open spec fn spec_variant(self, date: Date, variant_offset: int) -> int
        recommends
            self.school.bell_times@.len() >= 1,
    {
        spec_current_variant(spec_iso_week(date), variant_offset,
            self.school.bell_times@.len() as int)
    }

    /// The day lists of the week variant active on `date`.
    pub open spec fn spec_active_days(self, date: Date, variant_offset: int) -> Seq<Day> {
        self.school.bell_times@[self.spec_variant(date, variant_offset)].days@
    }

    /// Whether the weekday of `date` has a day list in the active variant:
    /// Saturday and Sunday never do against a five-day week.
    pub open spec fn spec_weekday_in_range(self, date: Date, variant_offset: int) -> bool {
        spec_weekday_index(date) < self.spec_active_days(date, variant_offset).len()
    }

    /// The resolved day: the active variant's bells for `date`'s weekday.
    pub open spec fn spec_resolved_day(self, date: Date, variant_offset: int) -> Seq<BellTime> {
        self.spec_active_days(date, variant_offset)[spec_weekday_index(date)]@
    }

    /// Get the day for a given date, picking the active week variant by
    /// `(week_number + variant_offset) mod variants`.
    ///
    /// # Errors
    ///
    /// Fails with [`FindBellError::WeekdayOutOfRange`], carrying the weekday
    /// index, when the date's weekday has no day list — in particular on a
    /// Saturday or Sunday — and never with any other error.
    pub fn get_day(&self, date: &Date, variant_offset: usize) -> (r: Result<&Day, FindBellError>)
        requires
            date.wf(),
            self.school.bell_times@.len() >= 1,
        ensures
            r is Ok <==> self.spec_weekday_in_range(*date, variant_offset as int),
            r matches Ok(day) ==> *day == self.spec_active_days(*date, variant_offset as int)[
                spec_weekday_index(*date)],
            r matches Err(e) ==> e == FindBellError::WeekdayOutOfRange(
                spec_weekday_index(*date) as usize),
    {
        let weekday = weekday_from_monday(date);
        let current_variant = get_current_variant(date, variant_offset,
            self.school.bell_times.len());
        let week = &self.school.bell_times[current_variant];
        if weekday < week.days.len() {
            Ok(&week.days[weekday])
        } else {
            Err(FindBellError::WeekdayOutOfRange(weekday))
        }
    }

    /// Get the first subject with the given ID, or [`None`] when no subject
    /// matches.
    pub fn get_subject(&self, subject_id: Uid) -> (r: Option<&Subject>)
        ensures
            r is Some <==> exists|i: int|
                0 <= i < self.subjects@.len() && self.subjects@[i].id == subject_id,
            r matches Some(s) ==> exists|i: int|
                0 <= i < self.subjects@.len() && self.subjects@[i].id == subject_id && *s
                    == self.subjects@[i] && (forall|j: int|
                    0 <= j < i ==> self.subjects@[j].id != subject_id),
    {
        let mut i: usize = 0;
        while i < self.subjects.len()
            invariant
                i <= self.subjects@.len(),
                forall|j: int| 0 <= j < i ==> self.subjects@[j].id != subject_id,
            decreases self.subjects@.len() - i,
        {
            if self.subjects[i].id == subject_id {
                return Some(&self.subjects[i]);
            }
            i += 1;
        }
        None
    }

    /// Find the first bell at or after the given time on the given date's
    /// day, scanning the day's bells in stored order and skipping disabled
    /// bells. Searches never continue into another day.
    ///
    /// # Errors
    ///
    /// Fails with [`FindBellError::WeekdayOutOfRange`] when the date's
    /// weekday has no day list, and with [`FindBellError::NoBellFound`] when
    /// no enabled bell rings at or after the given time on that day.
    #[verifier::loop_isolation(false)]
    pub fn find_first_after(&self, date_time: DateTime, variant_offset: usize) -> (r: Result<
        &BellTime,
        FindBellError,
    >)
        requires
            date_time.wf(),
            self.school.bell_times@.len() >= 1,
        ensures
            !self.spec_weekday_in_range(date_time.date, variant_offset as int) ==> r == Err::<
                &BellTime,
                FindBellError,
            >(FindBellError::WeekdayOutOfRange(spec_weekday_index(date_time.date) as usize)),
            self.spec_weekday_in_range(date_time.date, variant_offset as int) ==> ({
                let day = self.spec_resolved_day(date_time.date, variant_offset as int);
                &&& (r is Ok <==> exists|i: int|
                    0 <= i < day.len() && bell_matches_after(day[i], date_time.time))
                &&& (r matches Ok(b) ==> exists|i: int|
                    0 <= i < day.len() && bell_matches_after(day[i], date_time.time) && *b == day[i]
                        && (forall|j: int|
                        0 <= j < i ==> !bell_matches_after(day[j], date_time.time)))
                &&& (r is Err ==> r == Err::<&BellTime, FindBellError>(FindBellError::NoBellFound))
            }),
    {
        let day = match self.get_day(&date_time.date, variant_offset) {
            Ok(d) => d,
            Err(e) => {
                return Err(e);
            },
        };
        let mut i: usize = 0;
        while i < day.len()
            invariant
                i <= day@.len(),
                forall|j: int| 0 <= j < i ==> !bell_matches_after(day@[j], date_time.time),
            decreases day@.len() - i,
        {
            if day[i].enabled && day[i].time.ge(date_time.time) {
                proof {
                    let day_spec = self.spec_resolved_day(date_time.date, variant_offset as int);
                    assert(bell_matches_after(day_spec[i as int], date_time.time));
                }
                return Ok(&day[i]);
            }
            i += 1;
        }
        Err(FindBellError::NoBellFound)
    }

    /// Find the first bell at or before the given time on the given date's
    /// day — the latest such bell — scanning the day's bells backward from
    /// the end and skipping disabled bells. Searches never continue into
    /// another day.
    ///
    /// # Errors
    ///
    /// Fails with [`FindBellError::WeekdayOutOfRange`] when the date's
    /// weekday has no day list, and with [`FindBellError::NoBellFound`] when
    /// no enabled bell rings at or before the given time on that day.
    #[verifier::loop_isolation(false)]
    pub fn find_first_before(&self, date_time: DateTime, variant_offset: usize) -> (r: Result<
        &BellTime,
        FindBellError,
    >)
        requires
            date_time.wf(),
            self.school.bell_times@.len() >= 1,
        ensures
            !self.spec_weekday_in_range(date_time.date, variant_offset as int) ==> r == Err::<
                &BellTime,
                FindBellError,
            >(FindBellError::WeekdayOutOfRange(spec_weekday_index(date_time.date) as usize)),
            self.spec_weekday_in_range(date_time.date, variant_offset as int) ==> ({
                let day = self.spec_resolved_day(date_time.date, variant_offset as int);
                &&& (r is Ok <==> exists|i: int|
                    0 <= i < day.len() && bell_matches_before(day[i], date_time.time))
                &&& (r matches Ok(b) ==> exists|i: int|
                    0 <= i < day.len() && bell_matches_before(day[i], date_time.time) && *b
                        == day[i] && (forall|j: int|
                        i < j < day.len() ==> !bell_matches_before(day[j], date_time.time)))
                &&& (r is Err ==> r == Err::<&BellTime, FindBellError>(FindBellError::NoBellFound))
            }),
    {
        let day = match self.get_day(&date_time.date, variant_offset) {
            Ok(d) => d,
            Err(e) => {
                return Err(e);
            },
        };
        let mut i: usize = day.len();
        while i > 0
            invariant
                i <= day@.len(),
                forall|j: int| i <= j < day@.len() ==> !bell_matches_before(day@[j],
                    date_time.time),
            decreases i,
        {
            i -= 1;
            if day[i].enabled && day[i].time.le(date_time.time) {
                return Ok(&day[i]);
            }
        }
        Err(FindBellError::NoBellFound)
    }

    /// Find all bells from the first enabled bell at or after the given time
    /// to the end of the day, in ascending stored order. The run is a
    /// contiguous slice of the day: a disabled bell strictly inside it is
    /// kept; only the endpoint search skips disabled bells. Searches never
    /// continue into another day.
    ///
    /// # Errors
    ///
    /// Fails with [`FindBellError::WeekdayOutOfRange`] when the date's
    /// weekday has no day list, and with [`FindBellError::NoBellFound`] when
    /// no enabled bell rings at or after the given time on that day.
    #[verifier::loop_isolation(false)]
    pub fn find_all_after(&self, date_time: DateTime, variant_offset: usize) -> (r: Result<
        &[BellTime],
        FindBellError,
    >)
        requires
            date_time.wf(),
            self.school.bell_times@.len() >= 1,
        ensures
            !self.spec_weekday_in_range(date_time.date, variant_offset as int) ==> r == Err::<
                &[BellTime],
                FindBellError,
            >(FindBellError::WeekdayOutOfRange(spec_weekday_index(date_time.date) as usize)),
            self.spec_weekday_in_range(date_time.date, variant_offset as int) ==> ({
                let day = self.spec_resolved_day(date_time.date, variant_offset as int);
                &&& (r is Ok <==> exists|i: int|
                    0 <= i < day.len() && bell_matches_after(day[i], date_time.time))
                &&& (r matches Ok(bells) ==> exists|i: int|
                    0 <= i < day.len() && bell_matches_after(day[i], date_time.time) && (forall|
                        j: int,
                    |
                        0 <= j < i ==> !bell_matches_after(day[j], date_time.time)) && bells@
                        == day.subrange(i, day.len() as int) && bells@.len() > 0)
                &&& (r is Err ==> r == Err::<&[BellTime], FindBellError>(
                    FindBellError::NoBellFound))
            }),
    {
        let day = match self.get_day(&date_time.date, variant_offset) {
            Ok(d) => d,
            Err(e) => {
                return Err(e);
            },
        };
        let mut i: usize = 0;
        while i < day.len()
            invariant
                i <= day@.len(),
                forall|j: int| 0 <= j < i ==> !bell_matches_after(day@[j], date_time.time),
            decreases day@.len() - i,
        {
            if day[i].enabled && day[i].time.ge(date_time.time) {
                proof {
                    let day_spec = self.spec_resolved_day(date_time.date, variant_offset as int);
                    assert(bell_matches_after(day_spec[i as int], date_time.time));
                }
                return Ok(slice_subrange(day.as_slice(), i, day.len()));
            }
            i += 1;
        }
        Err(FindBellError::NoBellFound)
    }

    /// Find all bells from the start of the day to the last enabled bell at
    /// or before the given time, in ascending stored order. The run is a
    /// contiguous slice of the day: a disabled bell strictly inside it is
    /// kept; only the endpoint search skips disabled bells. Searches never
    /// continue into another day.
    ///
    /// # Errors
    ///
    /// Fails with [`FindBellError::WeekdayOutOfRange`] when the date's
    /// weekday has no day list, and with [`FindBellError::NoBellFound`] when
    /// no enabled bell rings at or before the given time on that day.
    #[verifier::loop_isolation(false)]
    pub fn find_all_before(&self, date_time: DateTime, variant_offset: usize) -> (r: Result<
        &[BellTime],
        FindBellError,
    >)
        requires
            date_time.wf(),
            self.school.bell_times@.len() >= 1,
        ensures
            !self.spec_weekday_in_range(date_time.date, variant_offset as int) ==> r == Err::<
                &[BellTime],
                FindBellError,
            >(FindBellError::WeekdayOutOfRange(spec_weekday_index(date_time.date) as usize)),
            self.spec_weekday_in_range(date_time.date, variant_offset as int) ==> ({
                let day = self.spec_resolved_day(date_time.date, variant_offset as int);
                &&& (r is Ok <==> exists|i: int|
                    0 <= i < day.len() && bell_matches_before(day[i], date_time.time))
                &&& (r matches Ok(bells) ==> exists|i: int|
                    0 <= i < day.len() && bell_matches_before(day[i], date_time.time) && (forall|
                        j: int,
                    |
                        i < j < day.len() ==> !bell_matches_before(day[j], date_time.time))
                        && bells@ == day.subrange(0, i + 1) && bells@.len() > 0)
                &&& (r is Err ==> r == Err::<&[BellTime], FindBellError>(
                    FindBellError::NoBellFound))
            }),
    {
        let day = match self.get_day(&date_time.date, variant_offset) {
            Ok(d) => d,
            Err(e) => {
                return Err(e);
            },
        };
        let mut i: usize = day.len();
        while i > 0
            invariant
                i <= day@.len(),
                forall|j: int| i <= j < day@.len() ==> !bell_matches_before(day@[j],
                    date_time.time),
            decreases i,
        {
            i -= 1;
            if day[i].enabled && day[i].time.le(date_time.time) {
                return Ok(slice_subrange(day.as_slice(), 0, i + 1));
            }
        }
        Err(FindBellError::NoBellFound)
    }
}

} // verus!
