//! The day of an entry: which numbers name a day of the calendar, and how a
//! day is written.

use crate::text::{decimal_nat, digit_char};
use vstd::pervasive::unreached;
use vstd::prelude::*;

verus! {

/// The first year that a date can lie in.
pub const MIN_YEAR: i32 = -262143;

/// The last year that a date can lie in.
pub const MAX_YEAR: i32 = 262142;

/// The pattern that writes a date as year, month and day between slashes.
pub const DATE_PATTERN: &'static str = "%Y/%m/%d";

/// Leap years of the proleptic Gregorian calendar, year 0 included.
pub open spec fn leap_year(year: int) -> bool {
    year % 4 == 0 && (year % 100 != 0 || year % 400 == 0)
}

/// The number of days of a month, 1 to 12, in a year.
pub open spec fn days_in_month(year: int, month: int) -> int {
    if month == 2 {
        if leap_year(year) {
            29
        } else {
            28
        }
    } else if month == 4 || month == 6 || month == 9 || month == 11 {
        30
    } else {
        31
    }
}

/// Whether year, month and day name a day of the calendar.
pub open spec fn calendar_date(year: int, month: int, day: int) -> bool {
    &&& MIN_YEAR <= year <= MAX_YEAR
    &&& 1 <= month <= 12
    &&& 1 <= day <= days_in_month(year, month)
}

/// A number below 100 in two digits.
pub open spec fn two_digits(n: int) -> Seq<char> {
    seq![digit_char(n / 10), digit_char(n % 10)]
}

/// A number below 10000 in four digits.
pub open spec fn four_digits(n: int) -> Seq<char> {
    seq![
        digit_char(n / 1000),
        digit_char(n / 100 % 10),
        digit_char(n / 10 % 10),
        digit_char(n % 10),
    ]
}

/// A year as the date text shows it: four digits from 0 to 9999; outside of
/// that a sign, then at least four digits.
pub open spec fn year_text(year: int) -> Seq<char> {
    if 0 <= year <= 9999 {
        four_digits(year)
    } else if -9999 <= year < 0 {
        seq!['-'] + four_digits(-year)
    } else if year < 0 {
        seq!['-'] + decimal_nat((-year) as nat)
    } else {
        seq!['+'] + decimal_nat(year as nat)
    }
}

/// The text of a date: `YYYY/MM/DD`, month and day in two digits.
pub open spec fn date_text(year: int, month: int, day: int) -> Seq<char> {
    year_text(year) + seq!['/'] + two_digits(month) + seq!['/'] + two_digits(day)
}

/// Calls chrono: `NaiveDate::from_ymd_opt` makes the date and
/// `NaiveDate::format` writes it. Trusted: the date is made exactly for the
/// days of the calendar within chrono's years, and the pattern `%Y/%m/%d`
/// writes the year zero-padded to four digits (signed outside 0 to 9999), then
/// month and day zero-padded to two digits each.
#[verifier::external_body]
fn chrono_date_text(year: i32, month: u32, day: u32, pattern: &str) -> (r: Option<String>)
    requires
        pattern@ == DATE_PATTERN@,
    ensures
        r is Some <==> calendar_date(year as int, month as int, day as int),
        r matches Some(text) ==> text@ == date_text(year as int, month as int, day as int),
{
    match chrono::NaiveDate::from_ymd_opt(year, month, day) {
        Some(date) => Some(date.format(pattern).to_string()),
        None => None,
    }
}

/// The day that an entry is written for.
#[derive(Clone, Copy, Debug, PartialEq, Eq)]
pub struct EntryDate {
    year: i32,
    month: u32,
    day: u32,
}

impl EntryDate {
    #[verifier::type_invariant]
    spec fn inv(self) -> bool {
        self.valid()
    }

    /// Whether the three numbers name a day of the calendar. Every date that
    /// `new` hands out is valid.
    pub open spec fn valid(self) -> bool {
        calendar_date(self.year() as int, self.month() as int, self.day() as int)
    }

    pub closed spec fn spec_year(&self) -> i32 {
        self.year
    }

    pub closed spec fn spec_month(&self) -> u32 {
        self.month
    }

    pub closed spec fn spec_day(&self) -> u32 {
        self.day
    }

    /// The date of a day of the calendar; `None` for numbers that name none.
    pub fn new(year: i32, month: u32, day: u32) -> (r: Option<EntryDate>)
        ensures
            r is Some <==> calendar_date(year as int, month as int, day as int),
            r matches Some(date) ==> date.valid() && date.year() == year && date.month() == month
                && date.day() == day,
    {
        if year < MIN_YEAR || year > MAX_YEAR || month < 1 || month > 12 || day < 1 {
            return None;
        }
        // 262400 years are a whole number of 400-year cycles.
        let shifted: u32 = (year + 262400) as u32;
        let leap = shifted % 4 == 0 && (shifted % 100 != 0 || shifted % 400 == 0);
        assert(leap == leap_year(year as int));
        let length: u32 = if month == 2 {
            if leap {
                29
            } else {
                28
            }
        } else if month == 4 || month == 6 || month == 9 || month == 11 {
            30
        } else {
            31
        };
        if day > length {
            return None;
        }
        Some(EntryDate { year, month, day })
    }

    #[verifier::when_used_as_spec(spec_year)]
    pub fn year(&self) -> (r: i32)
        ensures
            r == self.year(),
    {
        self.year
    }

    #[verifier::when_used_as_spec(spec_month)]
    pub fn month(&self) -> (r: u32)
        ensures
            r == self.month(),
    {
        self.month
    }

    #[verifier::when_used_as_spec(spec_day)]
    pub fn day(&self) -> (r: u32)
        ensures
            r == self.day(),
    {
        self.day
    }

    /// The date as `YYYY/MM/DD`.
    pub fn text(&self) -> (r: String)
        ensures
            r@ == date_text(self.year() as int, self.month() as int, self.day() as int),
    {
        proof {
            use_type_invariant(self);
        }
        match chrono_date_text(self.year, self.month, self.day, DATE_PATTERN) {
            Some(text) => text,
            None => unreached(),
        }
    }
}

} // verus!
