//! Calendar dates of the proleptic Gregorian calendar and their day numbers,
//! counted from the first of January of year 1.

use vstd::prelude::*;

verus! {

/// The year the day count starts in.
pub const EPOCH_YEAR: u32 = 1;

/// The last year a date may have.
pub const LAST_YEAR: u32 = 9999;

/// A calendar date of the Gregorian calendar.
#[derive(Clone, Copy, Debug, PartialEq, Eq, Structural)]
pub struct CalendarDate {
    pub year: u32,
    pub month: u32,
    pub day: u32,
}

pub open spec fn is_leap(y: int) -> bool {
    (y % 4 == 0 && y % 100 != 0) || y % 400 == 0
}

pub open spec fn year_days(y: int) -> nat {
    if is_leap(y) { 366 } else { 365 }
}

pub open spec fn month_days(y: int, m: int) -> nat {
    if m == 2 {
        if is_leap(y) { 29 } else { 28 }
    } else if m == 4 || m == 6 || m == 9 || m == 11 {
        30
    } else {
        31
    }
}

/// Days from the epoch to the first of January of year `y`.
pub open spec fn days_before_year(y: int) -> nat
    decreases y - EPOCH_YEAR,
{
    if y <= EPOCH_YEAR {
        0
    } else {
        days_before_year(y - 1) + year_days(y - 1)
    }
}

/// Days from the first of January of year `y` to the first of month `m`.
pub open spec fn days_before_month(y: int, m: int) -> nat
    decreases m,
{
    if m <= 1 {
        0
    } else {
        days_before_month(y, m - 1) + month_days(y, m - 1)
    }
}

/// The day number of a date: days since the first of January of year 1.
pub open spec fn day_number_of(d: CalendarDate) -> int {
    days_before_year(d.year as int) + days_before_month(d.year as int, d.month as int) + d.day - 1
}

impl CalendarDate {
    /// A date that exists, from the epoch year to the last year.
    pub open spec fn wf(&self) -> bool {
        &&& EPOCH_YEAR <= self.year <= LAST_YEAR
        &&& 1 <= self.month <= 12
        &&& 1 <= self.day <= month_days(self.year as int, self.month as int)
    }

    /// Builds a date; `None` when no such date exists in range.
    pub fn new(year: u32, month: u32, day: u32) -> (r: Option<CalendarDate>)
        ensures
            r is Some <==> (CalendarDate { year, month, day }).wf(),
            r matches Some(d) ==> d == (CalendarDate { year, month, day }),
    {
        if year < EPOCH_YEAR || year > LAST_YEAR || month < 1 || month > 12 || day < 1 {
            return None;
        }
        if day > days_in_month(year, month) {
            return None;
        }
        Some(CalendarDate { year, month, day })
    }

    /// Days since the first of January of year 1.
    pub fn day_number(&self) -> (r: u64)
        requires
            self.wf(),
        ensures
            r == day_number_of(*self),
    {
        let mut acc: u64 = 0;
        let mut y: u32 = EPOCH_YEAR;
        while y < self.year
            invariant
                EPOCH_YEAR <= y <= self.year <= LAST_YEAR,
                acc == days_before_year(y as int),
                acc <= 366 * (y - EPOCH_YEAR),
            decreases self.year - y,
        {
            acc = acc + if is_leap_year(y) { 366 } else { 365 };
            y = y + 1;
        }
        let mut m: u32 = 1;
        while m < self.month
            invariant
                1 <= m <= self.month <= 12,
                acc == days_before_year(self.year as int) + days_before_month(self.year as int, m as int),
                acc <= 366 * (self.year - EPOCH_YEAR) + 31 * (m - 1),
            decreases self.month - m,
        {
            acc = acc + days_in_month(self.year, m) as u64;
            m = m + 1;
        }
        acc + self.day as u64 - 1
    }
}

fn is_leap_year(y: u32) -> (r: bool)
    ensures
        r == is_leap(y as int),
{
    (y % 4 == 0 && y % 100 != 0) || y % 400 == 0
}

fn days_in_month(y: u32, m: u32) -> (r: u32)
    ensures
        r == month_days(y as int, m as int),
{
    if m == 2 {
        if is_leap_year(y) { 29 } else { 28 }
    } else if m == 4 || m == 6 || m == 9 || m == 11 {
        30
    } else {
        31
    }
}

} // verus!
