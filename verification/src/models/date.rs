use vstd::prelude::*;

verus! {

/// A civil calendar date, interpreted as the UTC day it names.
///
/// Valid years span 1 through 9999; months and days are 1-based. The
/// schedule computation needs the date itself, its day of the year (for the
/// seasonal twilight correction) and its successor (for the night spanning
/// the day boundary), all of which are computed here.
#[derive(PartialEq, Eq, Structural, Debug, Copy, Clone)]
pub struct Date {
    pub year: i32,
    pub month: u32,
    pub day: u32,
}

/// The proleptic Gregorian leap-year rule for positive years.
pub open spec fn spec_is_leap_year(year: int) -> bool {
    year % 4 == 0 && (year % 100 != 0 || year % 400 == 0)
}

/// Length of a month of the Gregorian calendar, for positive years.
pub open spec fn spec_days_in_month(year: int, month: int) -> int {
    if month == 2 {
        if spec_is_leap_year(year) {
            29
        } else {
            28
        }
    } else if month == 4 || month == 6 || month == 9 || month == 11 {
        30
    } else {
        31
    }
}

/// Number of days of the year strictly before the first day of `month`.
pub open spec fn spec_days_before_month(year: int, month: int) -> int
    decreases month,
{
    if month <= 1 {
        0
    } else {
        spec_days_before_month(year, month - 1) + spec_days_in_month(year, month - 1)
    }
}

/// Returns whether `year` is a leap year.
pub fn is_leap_year(year: i32) -> (r: bool)
    requires
        1 <= year,
    ensures
        r == spec_is_leap_year(year as int),
{
    year % 4 == 0 && (year % 100 != 0 || year % 400 == 0)
}

/// Returns the number of days in the given month.
pub fn days_in_month(year: i32, month: u32) -> (r: u32)
    requires
        1 <= year,
        1 <= month <= 12,
    ensures
        r == spec_days_in_month(year as int, month as int),
{
    if month == 2 {
        if is_leap_year(year) {
            29
        } else {
            28
        }
    } else if month == 4 || month == 6 || month == 9 || month == 11 {
        30
    } else {
        31
    }
}

impl Date {
    /// The date names an actual day of the proleptic Gregorian calendar,
    /// in a year between 1 and 9999.
    pub open spec fn valid(self) -> bool {
        &&& 1 <= self.year <= 9999
        &&& 1 <= self.month <= 12
        &&& 1 <= self.day <= spec_days_in_month(self.year as int, self.month as int)
    }

    /// The one-based day of the year: January 1st maps to 1.
    pub open spec fn spec_day_of_year(self) -> int {
        spec_days_before_month(self.year as int, self.month as int) + self.day
    }

    /// The next civil date.
    pub open spec fn spec_next(self) -> Date {
        if self.day < spec_days_in_month(self.year as int, self.month as int) {
            Date { year: self.year, month: self.month, day: (self.day + 1) as u32 }
        } else if self.month < 12 {
            Date { year: self.year, month: (self.month + 1) as u32, day: 1 }
        } else {
            Date { year: (self.year + 1) as i32, month: 1, day: 1 }
        }
    }

    /// Builds a validated date: any combination that does not name an
    /// actual day in years 1 through 9999 is rejected.
    pub fn new(year: i32, month: u32, day: u32) -> (r: Option<Date>)
        ensures
            match r {
                Some(d) => d.valid() && d == (Date { year, month, day }),
                None => !(Date { year, month, day }).valid(),
            },
    {
        if 1 <= year && year <= 9999 && 1 <= month && month <= 12 && 1 <= day && day
            <= days_in_month(year, month) {
            Some(Date { year, month, day })
        } else {
            None
        }
    }

    /// Checks validity at run time.
    pub fn is_valid(&self) -> (r: bool)
        ensures
            r == self.valid(),
    {
        1 <= self.year && self.year <= 9999 && 1 <= self.month && self.month <= 12 && 1 <= self.day
            && self.day <= days_in_month(self.year, self.month)
    }

    /// Returns the one-based day of the year, at most 366, with 366
    /// reached only in a leap year.
    pub fn day_of_year(&self) -> (r: u32)
        requires
            self.valid(),
        ensures
            r == self.spec_day_of_year(),
            1 <= r <= 366,
            r <= 365 || spec_is_leap_year(self.year as int),
    {
        proof {
            reveal_with_fuel(spec_days_before_month, 13);
        }
        let before: u32 = match self.month {
            1 => 0,
            2 => 31,
            3 => 59,
            4 => 90,
            5 => 120,
            6 => 151,
            7 => 181,
            8 => 212,
            9 => 243,
            10 => 273,
            11 => 304,
            _ => 334,
        };
        let leap_shift: u32 = if self.month > 2 && is_leap_year(self.year) {
            1
        } else {
            0
        };
        before + leap_shift + self.day
    }

    /// Returns the next civil date; the last supported day has no
    /// successor, so the year must stay below the supported ceiling.
    pub fn next(&self) -> (r: Date)
        requires
            self.valid(),
            self.year <= 9998,
        ensures
            r == self.spec_next(),
            r.valid(),
    {
        if self.day < days_in_month(self.year, self.month) {
            Date { year: self.year, month: self.month, day: self.day + 1 }
        } else if self.month < 12 {
            Date { year: self.year, month: self.month + 1, day: 1 }
        } else {
            Date { year: self.year + 1, month: 1, day: 1 }
        }
    }
}

} // verus!
