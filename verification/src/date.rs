//! Calendar dates and times of day as plain values, with the arithmetic
//! the `yesterday` command needs: one calendar day back, across month and
//! year boundaries, leap years included.

use vstd::prelude::*;

verus! {

/// A calendar date in the supported range (years 1 through 9999).
#[derive(Clone, Copy, Debug, PartialEq, Eq, Structural)]
pub struct Date {
    pub year: i32,
    pub month: i32,
    pub day: i32,
}

/// A time of day on the 24-hour clock.
#[derive(Clone, Copy, Debug, PartialEq, Eq, Structural)]
pub struct TimeOfDay {
    pub hour: i32,
    pub minute: i32,
    pub second: i32,
}

/// A local timestamp: a date and a time of day.
#[derive(Clone, Copy, Debug, PartialEq, Eq, Structural)]
pub struct Timestamp {
    pub date: Date,
    pub time: TimeOfDay,
}

pub open spec fn is_leap_year(y: int) -> bool {
    y % 4 == 0 && (y % 100 != 0 || y % 400 == 0)
}

pub open spec fn days_in_month(y: int, m: int) -> int {
    if m == 2 {
        if is_leap_year(y) {
            29
        } else {
            28
        }
    } else if m == 4 || m == 6 || m == 9 || m == 11 {
        30
    } else {
        31
    }
}

impl Date {
    pub open spec fn wf(self) -> bool {
        &&& 1 <= self.year <= 9999
        &&& 1 <= self.month <= 12
        &&& 1 <= self.day <= days_in_month(self.year as int, self.month as int)
    }

    /// The first representable date; the one date with no predecessor here.
    pub open spec fn is_first_date(self) -> bool {
        self.year == 1 && self.month == 1 && self.day == 1
    }

    /// The calendar day before `self`.
    pub open spec fn spec_prev(self) -> Date {
        if self.day > 1 {
            Date { year: self.year, month: self.month, day: (self.day - 1) as i32 }
        } else if self.month > 1 {
            Date {
                year: self.year,
                month: (self.month - 1) as i32,
                day: days_in_month(self.year as int, self.month - 1) as i32,
            }
        } else {
            Date { year: (self.year - 1) as i32, month: 12, day: 31 }
        }
    }

    /// Checked constructor: `Some` exactly on valid calendar dates in range.
    pub fn new(year: i32, month: i32, day: i32) -> (r: Option<Date>)
        ensures
            r matches Some(d) ==> d.wf() && d.year == year && d.month == month && d.day == day,
            r is Some <==> (Date { year, month, day }).wf(),
    {
        if year < 1 || year > 9999 || month < 1 || month > 12 {
            return None;
        }
        let dim = days_in_month_exec(year, month);
        if day < 1 || day > dim {
            return None;
        }
        Some(Date { year, month, day })
    }

    /// The calendar day before `self`; `None` only at the very first date.
    pub fn prev_day(&self) -> (r: Option<Date>)
        requires
            self.wf(),
        ensures
            r matches Some(p) ==> p.wf() && p == self.spec_prev(),
            r is Some <==> !self.is_first_date(),
    {
        if self.day > 1 {
            Some(Date { year: self.year, month: self.month, day: self.day - 1 })
        } else if self.month > 1 {
            let m = self.month - 1;
            Some(Date { year: self.year, month: m, day: days_in_month_exec(self.year, m) })
        } else if self.year > 1 {
            Some(Date { year: self.year - 1, month: 12, day: 31 })
        } else {
            None
        }
    }
}

impl TimeOfDay {
    pub open spec fn wf(self) -> bool {
        &&& 0 <= self.hour <= 23
        &&& 0 <= self.minute <= 59
        &&& 0 <= self.second <= 59
    }
}

impl Timestamp {
    pub open spec fn wf(self) -> bool {
        self.date.wf() && self.time.wf()
    }
}

pub fn leap_year_exec(y: i32) -> (r: bool)
    requires
        1 <= y,
    ensures
        r == is_leap_year(y as int),
{
    y % 4 == 0 && (y % 100 != 0 || y % 400 == 0)
}

pub fn days_in_month_exec(y: i32, m: i32) -> (r: i32)
    requires
        1 <= y,
    ensures
        r == days_in_month(y as int, m as int),
{
    if m == 2 {
        if leap_year_exec(y) {
            29
        } else {
            28
        }
    } else if m == 4 || m == 6 || m == 9 || m == 11 {
        30
    } else {
        31
    }
}

} // verus!
