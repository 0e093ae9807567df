use chrono::Datelike;
use vstd::prelude::*;

verus! {

/// A calendar date of the proleptic Gregorian calendar.
#[derive(Copy, Clone, Debug, PartialEq, Eq, Structural)]
pub struct Date {
    pub year: i32,
    pub month: u32,
    pub day: u32,
}

pub open spec fn is_leap_year(year: int) -> bool {
    (year % 4 == 0 && year % 100 != 0) || year % 400 == 0
}

pub open spec fn days_in_month(year: int, month: int) -> int {
    if month == 2 {
        if is_leap_year(year) { 29 } else { 28 }
    } else if month == 4 || month == 6 || month == 9 || month == 11 {
        30
    } else {
        31
    }
}

impl Date {
    /// The date names a real day: a month of the year and a day of that month.
    pub open spec fn is_valid(self) -> bool {
        &&& 1 <= self.month <= 12
        &&& 1 <= self.day <= days_in_month(self.year as int, self.month as int)
    }
}

/// Calls `chrono::Local::now().date_naive()` and reads its year, month and
/// day. Claimed only that the date is a real calendar day, which every
/// `NaiveDate` is; which day it is depends on the clock and the time zone.
#[verifier::external_body]
pub(crate) fn today() -> (res: Date)
    ensures
        res.is_valid(),
{
    let now = chrono::Local::now().date_naive();
    Date { year: now.year(), month: now.month(), day: now.day() }
}

} // verus!
