//! Calendar dates and the store of pending reminder dates.

use vstd::prelude::*;

verus! {

/// The least and the greatest year that the calendar can hold.
pub const MIN_YEAR: i32 = -262_143;

pub const MAX_YEAR: i32 = 262_142;

/// Leap years of the proleptic Gregorian calendar.
pub open spec fn is_leap_year(year: int) -> bool {
    year % 4 == 0 && (year % 100 != 0 || year % 400 == 0)
}

/// Number of days of a month; 0 where the month does not exist.
pub open spec fn days_in_month(year: int, month: int) -> int {
    if month == 2 {
        if is_leap_year(year) {
            29
        } else {
            28
        }
    } else if month == 4 || month == 6 || month == 9 || month == 11 {
        30
    } else if 1 <= month <= 12 {
        31
    } else {
        0
    }
}

/// The day exists in the calendar, within the years that it can hold.
pub open spec fn is_calendar_date(year: int, month: int, day: int) -> bool {
    &&& MIN_YEAR <= year <= MAX_YEAR
    &&& 1 <= month <= 12
    &&& 1 <= day <= days_in_month(year, month)
}

/// Asks chrono whether a day exists (`NaiveDate::from_ymd_opt`, which gives
/// a date exactly for the days of the proleptic Gregorian calendar between
/// its least and greatest year).
#[verifier::external_body]
fn calendar_date_exists(year: i32, month: u32, day: u32) -> (exists: bool)
    ensures
        exists == is_calendar_date(year as int, month as int, day as int),
{
    chrono::NaiveDate::from_ymd_opt(year, month, day).is_some()
}

/// A day of the calendar.
#[derive(Clone, Copy, Debug, PartialEq, Eq, Structural)]
pub struct CalendarDate {
    pub year: i32,
    pub month: u32,
    pub day: u32,
}

impl CalendarDate {
    pub open spec fn wf(&self) -> bool {
        is_calendar_date(self.year as int, self.month as int, self.day as int)
    }

    /// `self` is a strictly earlier day than `other`.
    pub open spec fn is_before(&self, other: CalendarDate) -> bool {
        self.year < other.year || (self.year == other.year && (self.month < other.month || (
        self.month == other.month && self.day < other.day)))
    }

    /// The day with these numbers, where it exists.
    pub fn from_ymd(year: i32, month: u32, day: u32) -> (date: Option<CalendarDate>)
        ensures
            date.is_some() <==> is_calendar_date(year as int, month as int, day as int),
            date.is_some() ==> date.unwrap() == (CalendarDate { year, month, day }),
    {
        if calendar_date_exists(year, month, day) {
            Some(CalendarDate { year, month, day })
        } else {
            None
        }
    }

    /// Whether `self` is a strictly earlier day than `other`.
    pub fn precedes(&self, other: &CalendarDate) -> (b: bool)
        ensures
            b == self.is_before(*other),
    {
        self.year < other.year || (self.year == other.year && (self.month < other.month || (
        self.month == other.month && self.day < other.day)))
    }
}

} // verus!
