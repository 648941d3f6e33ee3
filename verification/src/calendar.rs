//! Dates of the proleptic Gregorian calendar, as plain year, month and day.

use vstd::prelude::*;

verus! {

/// The first year that a date can lie in.
pub const MIN_YEAR: i32 = -9999;

/// The last year that a date can lie in.
pub const MAX_YEAR: i32 = 9999;

/// Whether a year has a 29th of February.
pub open spec fn is_leap_year(year: int) -> bool {
    year % 4 == 0 && (year % 100 != 0 || year % 400 == 0)
}

/// The number of days of a month, counted from 1 for January.
pub open spec fn days_in_month(year: int, month: int) -> int
    recommends
        1 <= month <= 12,
{
    if month == 2 {
        if is_leap_year(year) {
            29
        } else {
            28
        }
    } else if month == 4 || month == 6 || month == 9 || month == 11 {
        30
    } else {
        31
    }
}

/// A calendar date. The month counts from 1 for January, the day from 1.
#[derive(Clone, Copy, Debug, PartialEq, Eq, Structural)]
pub struct Date {
    pub year: i32,
    pub month: u8,
    pub day: u8,
}

impl Date {
    /// Whether the three numbers name a day of the calendar in a supported
    /// year.
    pub open spec fn is_valid(self) -> bool {
        &&& MIN_YEAR <= self.year <= MAX_YEAR
        &&& 1 <= self.month <= 12
        &&& 1 <= self.day <= days_in_month(self.year as int, self.month as int)
    }

    /// The date of the day after this one, or `None` after the last day of
    /// the last supported year.
    pub open spec fn following(self) -> Option<Date> {
        if self.day < days_in_month(self.year as int, self.month as int) {
            Some(Date { year: self.year, month: self.month, day: (self.day + 1) as u8 })
        } else if self.month < 12 {
            Some(Date { year: self.year, month: (self.month + 1) as u8, day: 1 })
        } else if self.year < MAX_YEAR {
            Some(Date { year: (self.year + 1) as i32, month: 1, day: 1 })
        } else {
            None
        }
    }
}

/// Every day of the calendar but the last has a following day, which is
/// again a day of the calendar and another one.
pub proof fn lemma_following_is_valid(date: Date)
    requires
        date.is_valid(),
    ensures
        date.following() is None <==> date == (Date { year: MAX_YEAR, month: 12, day: 31 }),
        date.following() matches Some(next) ==> next.is_valid() && next != date,
{
}

/// No two days of the calendar are followed by the same day: a day has at
/// most one day before it.
pub proof fn lemma_following_is_injective(first: Date, second: Date)
    requires
        first.is_valid(),
        second.is_valid(),
        first.following() is Some,
        first.following() == second.following(),
    ensures
        first == second,
{
}

/// The day after `date`, from `time::Date::next_day`.
///
/// Trusted: the date is handed to the `time` crate as a calendar date, and
/// what `next_day` gives is read back as year, month and day. The contract
/// claims that this is the next day of the Gregorian calendar, and that there
/// is none after the 31st of December of the last supported year.
#[verifier::external_body]
pub(crate) fn next_day(date: Date) -> (next: Option<Date>)
    requires
        date.is_valid(),
    ensures
        next == date.following(),
{
    let month = time::Month::try_from(date.month).unwrap();
    match time::Date::from_calendar_date(date.year, month, date.day).unwrap().next_day() {
        Some(day) => Some(Date { year: day.year(), month: u8::from(day.month()), day: day.day() }),
        None => None,
    }
}

} // verus!
