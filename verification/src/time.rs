//! Calendar times as plain fields, and their short written form.

use vstd::prelude::*;
use crate::text::digit_char;

verus! {

/// A calendar date and time of day, read from a clock or from the schedule API.
#[derive(Debug, Clone, Copy, PartialEq, Eq)]
pub struct DateTimeParts {
    pub year: i32,
    pub month: u32,
    pub day: u32,
    pub hour: u32,
    pub minute: u32,
    pub second: u32,
}

/// Whether a year of the proleptic Gregorian calendar is a leap year.
pub open spec fn is_leap_year(year: int) -> bool {
    year % 4 == 0 && (year % 100 != 0 || year % 400 == 0)
}

/// The number of days of a month.
pub open spec fn days_in_month(year: int, month: int) -> int {
    if month == 2 {
        if is_leap_year(year) { 29 } else { 28 }
    } else if month == 4 || month == 6 || month == 9 || month == 11 {
        30
    } else {
        31
    }
}

/// The smallest and the largest year that a calendar date can have here.
pub open spec fn min_year() -> int {
    -262143
}

pub open spec fn max_year() -> int {
    262142
}

/// Two decimal digits of a number below one hundred.
pub open spec fn two_digits(n: nat) -> Seq<char> {
    seq![digit_char((n / 10) as int), digit_char((n % 10) as int)]
}

impl DateTimeParts {
    /// The fields name an existing date and time of day.
    pub open spec fn is_valid(&self) -> bool {
        &&& min_year() <= self.year <= max_year()
        &&& 1 <= self.month <= 12
        &&& 1 <= self.day <= days_in_month(self.year as int, self.month as int)
        &&& self.hour < 24
        &&& self.minute < 60
        &&& self.second < 60
    }

    /// The short form `MM/DD hh:mm`.
    pub open spec fn short_form(&self) -> Seq<char> {
        two_digits(self.month as nat) + seq!['/'] + two_digits(self.day as nat) + seq![' ']
            + two_digits(self.hour as nat) + seq![':'] + two_digits(self.minute as nat)
    }
}

/// Writes a date and time as `MM/DD hh:mm` with chrono's `%m/%d %H:%M` format.
///
/// Trusted: `chrono::NaiveDate::from_ymd_opt` and `and_hms_opt` give a value for every
/// valid date and time, and chrono documents `%m`, `%d`, `%H` and `%M` as the month,
/// day, hour and minute, each zero-padded to two digits.
#[verifier::external_body]
pub(crate) fn format_short(t: &DateTimeParts) -> (res: String)
    requires
        t.is_valid(),
    ensures
        res@ == t.short_form(),
{
    let dt = chrono::NaiveDate::from_ymd_opt(t.year, t.month, t.day)
        .and_then(|d| d.and_hms_opt(t.hour, t.minute, t.second))
        .unwrap();
    dt.format("%m/%d %H:%M").to_string()
}

} // verus!
