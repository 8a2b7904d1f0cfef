//! Calendar dates and month arithmetic.
//!
//! A [`Date`] is a day of the proleptic Gregorian calendar, held as year,
//! month and day. Whether three numbers name such a day is decided by
//! `chrono`; the month arithmetic on top of it is this module's own.
use vstd::prelude::*;

verus! {

/// Earliest year a date can have.
pub const MIN_YEAR: i32 = -262143;

/// Latest year a date can have.
pub const MAX_YEAR: i32 = 262142;

/// The most months that can lie between two dates: from January of
/// `MIN_YEAR` to December of `MAX_YEAR`.
pub const MAX_MONTH_SPAN: i32 = 6_291_431;

/// Whether `year` has a 29th of February.
pub open spec fn spec_is_leap_year(year: int) -> bool {
    year % 4 == 0 && (year % 100 != 0 || year % 400 == 0)
}

/// Number of days of the given month; `month` is 1 for January.
pub open spec fn spec_days_in_month(year: int, month: int) -> int {
    if month == 2 {
        if spec_is_leap_year(year) {
            29
        } else {
            28
        }
    } else if month == 4 || month == 6 || month == 9 || month == 11 {
        30
    } else {
        31
    }
}

/// Whether the three numbers name a day of the calendar within the years a
/// [`Date`] can have.
pub open spec fn spec_is_calendar_date(year: int, month: int, day: int) -> bool {
    &&& MIN_YEAR <= year <= MAX_YEAR
    &&& 1 <= month <= 12
    &&& 1 <= day <= spec_days_in_month(year, month)
}

/// A date as three mathematical integers.
pub struct Ymd {
    pub year: int,
    pub month: int,
    pub day: int,
}

impl Ymd {
    /// Whether this is a day of the calendar.
    pub open spec fn is_calendar_date(self) -> bool {
        spec_is_calendar_date(self.year, self.month, self.day)
    }

    /// Months counted from January of year 0.
    pub open spec fn month_index(self) -> int {
        self.year * 12 + (self.month - 1)
    }
}

/// Signed number of calendar months from `reference` to `target`. The day of
/// the month plays no part.
pub open spec fn spec_months_between(target: Ymd, reference: Ymd) -> int {
    (target.year - reference.year) * 12 + (target.month - reference.month)
}

/// The year, month and day reached from `start` by moving `months` calendar
/// months (backwards when negative) and keeping the day of the month. The
/// result need not be a day of the calendar: the 31st has no place in a
/// month of 30 days.
pub open spec fn spec_date_after_months(start: Ymd, months: int) -> Ymd {
    Ymd {
        year: (start.month_index() + months) / 12,
        month: (start.month_index() + months) % 12 + 1,
        day: start.day,
    }
}

/// Whether moving `months` calendar months from `start` lands on a day of
/// the calendar.
pub open spec fn spec_date_exists_after(start: Ymd, months: int) -> bool {
    spec_date_after_months(start, months).is_calendar_date()
}

/// A day of the calendar.
#[derive(Clone, Copy, Debug, PartialEq, Eq)]
pub struct Date {
    year: i32,
    month: u32,
    day: u32,
}

impl View for Date {
    type V = Ymd;

    closed spec fn view(&self) -> Ymd {
        Ymd { year: self.year as int, month: self.month as int, day: self.day as int }
    }
}

/// Asks `chrono::NaiveDate::from_ymd_opt` whether it accepts the three
/// numbers. It accepts exactly the days of the proleptic Gregorian calendar
/// from 1 January of `MIN_YEAR` to 31 December of `MAX_YEAR`.
#[verifier::external_body]
fn calendar_has(year: i32, month: u32, day: u32) -> (r: bool)
    ensures
        r == spec_is_calendar_date(year as int, month as int, day as int),
{
    chrono::NaiveDate::from_ymd_opt(year, month, day).is_some()
}

impl Date {
    #[verifier::type_invariant]
    spec fn is_consistent(self) -> bool {
        spec_is_calendar_date(self.year as int, self.month as int, self.day as int)
    }

    /// The date with the given year, month (1 to 12) and day of the month,
    /// if the calendar has such a day.
    pub fn from_ymd_opt(year: i32, month: u32, day: u32) -> (r: Option<Date>)
        ensures
            r.is_some() == spec_is_calendar_date(year as int, month as int, day as int),
            r.is_some() ==> r.unwrap()@ == (Ymd {
                year: year as int,
                month: month as int,
                day: day as int,
            }),
    {
        if calendar_has(year, month, day) {
            Some(Date { year, month, day })
        } else {
            None
        }
    }

    /// The year.
    pub fn year(&self) -> (r: i32)
        ensures
            r == self@.year,
            self@.is_calendar_date(),
    {
        proof {
            use_type_invariant(self);
        }
        self.year
    }

    /// The month, 1 for January.
    pub fn month(&self) -> (r: u32)
        ensures
            r == self@.month,
            self@.is_calendar_date(),
    {
        proof {
            use_type_invariant(self);
        }
        self.month
    }

    /// The day of the month.
    pub fn day(&self) -> (r: u32)
        ensures
            r == self@.day,
            self@.is_calendar_date(),
    {
        proof {
            use_type_invariant(self);
        }
        self.day
    }
}

/// Signed number of calendar months from `from_date` to `date`.
pub fn months_to_date(date: &Date, from_date: &Date) -> (r: i32)
    ensures
        r == spec_months_between(date@, from_date@),
        -MAX_MONTH_SPAN <= r <= MAX_MONTH_SPAN,
{
    let years: i32 = date.year() - from_date.year();
    let target_month: i32 = date.month() as i32;
    let reference_month: i32 = from_date.month() as i32;
    years * 12 + (target_month - reference_month)
}

/// The date `months` calendar months after `start` with the same day of the
/// month, or `None` when the calendar has no such day.
pub fn checked_date_after_months(start: &Date, months: i16) -> (r: Option<Date>)
    ensures
        r.is_some() == spec_date_exists_after(start@, months as int),
        r.is_some() ==> r.unwrap()@ == spec_date_after_months(start@, months as int),
{
    // 3_600_000 is a multiple of 12 that lifts every month count above zero
    let lifted: i32 = start.year() * 12 + (start.month() as i32 - 1) + months as i32 + 3_600_000;
    let year: i32 = lifted / 12 - 300_000;
    let month: u32 = (lifted % 12) as u32 + 1;
    Date::from_ymd_opt(year, month, start.day())
}

/// Moving `months` months from a date and counting the months back to it
/// gives `months` again, and the day of the month is kept.
pub proof fn lemma_months_between_after(start: Ymd, months: int)
    requires
        1 <= start.month <= 12,
    ensures
        spec_months_between(spec_date_after_months(start, months), start) == months,
        1 <= spec_date_after_months(start, months).month <= 12,
        spec_date_after_months(start, months).day == start.day,
        spec_date_after_months(start, 0) == start,
{
}

/// Moving on in two steps is moving on by their sum.
pub proof fn lemma_date_after_months_twice(start: Ymd, first: int, second: int)
    requires
        1 <= start.month <= 12,
    ensures
        spec_date_after_months(spec_date_after_months(start, first), second)
            == spec_date_after_months(start, first + second),
{
}

} // verus!
