use vstd::prelude::*;

use chrono::Datelike;

verus! {

/// Smallest year that a calendar date may carry.
pub const MIN_YEAR: i32 = -262143;

/// Largest year that a calendar date may carry.
pub const MAX_YEAR: i32 = 262142;

/// A day of the proleptic Gregorian calendar.
#[derive(Clone, Copy, Debug, PartialEq, Eq, Structural)]
pub struct Date {
    pub year: i32,
    pub month: u32,
    pub day: u32,
}

pub open spec fn is_leap_year(y: int) -> bool {
    y % 400 == 0 || (y % 4 == 0 && y % 100 != 0)
}

pub open spec fn days_in_month(y: int, m: int) -> int {
    if m == 2 {
        if is_leap_year(y) { 29 } else { 28 }
    } else if m == 4 || m == 6 || m == 9 || m == 11 {
        30
    } else {
        31
    }
}

/// The year, month and day name a day that exists in the supported range.
pub open spec fn valid_ymd(y: int, m: int, d: int) -> bool {
    &&& MIN_YEAR <= y <= MAX_YEAR
    &&& 1 <= m <= 12
    &&& 1 <= d <= days_in_month(y, m)
}

impl Date {
    pub open spec fn wf(self) -> bool {
        valid_ymd(self.year as int, self.month as int, self.day as int)
    }

    /// The day with the given year, month and day, or `None` where no such day
    /// exists or the year lies outside the supported range.
    pub fn from_ymd(year: i32, month: u32, day: u32) -> (r: Option<Date>)
        ensures
            r is Some <==> valid_ymd(year as int, month as int, day as int),
            r matches Some(d) ==> d == (Date { year, month, day }) && d.wf(),
    {
        match calendar_ymd(year, month, day) {
            Some((y, m, d)) => Some(Date { year: y, month: m, day: d }),
            None => None,
        }
    }

    /// Whether this day exists in the supported range.
    pub fn is_valid(&self) -> (r: bool)
        ensures
            r == self.wf(),
    {
        calendar_ymd(self.year, self.month, self.day).is_some()
    }
}

/// Relies on chrono's `NaiveDate::from_ymd_opt`, which returns `None` for an
/// out-of-range year or an invalid month or day, and otherwise a date whose
/// `year`, `month` and `day` are the ones given.
#[verifier::external_body]
fn calendar_ymd(year: i32, month: u32, day: u32) -> (r: Option<(i32, u32, u32)>)
    ensures
        r is Some <==> valid_ymd(year as int, month as int, day as int),
        r matches Some(t) ==> t == (year, month, day),
{
    chrono::NaiveDate::from_ymd_opt(year, month, day).map(|d| (d.year(), d.month(), d.day()))
}

} // verus!
