//! Points in time and calendar days, as plain numbers.

use vstd::prelude::*;
use vstd::string::*;
use crate::text::{decimal_digit, decimal_digits, push_decimal_digits};

verus! {

/// A point in time: microseconds since the Unix epoch, UTC.
#[derive(Debug, Clone, Copy, PartialEq, Eq, Hash, Structural)]
pub struct Timestamp {
    pub micros: i64,
}

/// A calendar day of the proleptic Gregorian calendar.
#[derive(Debug, Clone, Copy, PartialEq, Eq, Hash, Structural)]
pub struct Date {
    pub year: i32,
    /// 1 for January to 12 for December.
    pub month: u8,
    /// 1 to 31.
    pub day: u8,
}

/// The time of the system clock in microseconds since the Unix epoch.
/// `chrono::Utc::now` reads the clock and `DateTime::timestamp_micros` counts
/// the microseconds. The value depends on the time, so nothing is claimed of
/// it.
#[verifier::external_body]
fn clock_micros() -> (r: i64) {
    chrono::Utc::now().timestamp_micros()
}

impl Timestamp {
    /// The time of the system clock.
    pub fn now() -> (r: Timestamp) {
        Timestamp { micros: clock_micros() }
    }

    /// Whether `self` is strictly later than `other`.
    pub open spec fn later_than(self, other: Timestamp) -> bool {
        self.micros > other.micros
    }

    /// Whether `self` is strictly later than `other`.
    pub fn is_after(&self, other: &Timestamp) -> (r: bool)
        ensures
            r == self.later_than(*other),
    {
        self.micros > other.micros
    }
}

/// The last two decimal digits of `n`.
pub open spec fn two_digits(n: int) -> Seq<char> {
    seq![decimal_digit((n / 10) % 10), decimal_digit(n % 10)]
}

/// A year as ISO 8601 writes it: four digits for the years 0 to 9999, and
/// for any other year a sign and at least four digits.
pub open spec fn year_text(year: int) -> Seq<char> {
    if 0 <= year <= 9999 {
        two_digits(year / 100) + two_digits(year % 100)
    } else {
        let magnitude = if year < 0 {
            -year
        } else {
            year
        };
        let sign = if year < 0 {
            '-'
        } else {
            '+'
        };
        if magnitude <= 9999 {
            seq![sign] + two_digits(magnitude / 100) + two_digits(magnitude % 100)
        } else {
            seq![sign] + decimal_digits(magnitude)
        }
    }
}

/// A day as ISO 8601 writes it: year, month and day with `-` between.
pub open spec fn date_text(date: Date) -> Seq<char> {
    year_text(date.year as int) + seq!['-'] + two_digits(date.month as int) + seq!['-']
        + two_digits(date.day as int)
}

/// Puts the last two decimal digits of `n` behind `out`.
fn push_two_digits(out: &mut String, n: u32)
    ensures
        final(out)@ == old(out)@ + two_digits(n as int),
{
    out.push((48u8 + ((n / 10) % 10) as u8) as char);
    out.push((48u8 + (n % 10) as u8) as char);
    assert(out@ =~= old(out)@ + two_digits(n as int));
}

impl Date {
    /// Puts the day, as ISO 8601 writes it, behind `out`.
    pub fn push_to(&self, out: &mut String)
        ensures
            final(out)@ == old(out)@ + date_text(*self),
    {
        let year = self.year;
        if 0 <= year && year <= 9999 {
            push_two_digits(out, (year / 100) as u32);
            push_two_digits(out, (year % 100) as u32);
        } else {
            let magnitude: u32 = if year < 0 {
                ((-(year + 1)) as u32) + 1
            } else {
                year as u32
            };
            if year < 0 {
                out.push('-');
            } else {
                out.push('+');
            }
            if magnitude <= 9999 {
                push_two_digits(out, magnitude / 100);
                push_two_digits(out, magnitude % 100);
            } else {
                push_decimal_digits(out, magnitude as u64);
            }
        }
        assert(out@ =~= old(out)@ + year_text(self.year as int));
        out.push('-');
        push_two_digits(out, self.month as u32);
        out.push('-');
        push_two_digits(out, self.day as u32);
        assert(out@ =~= old(out)@ + date_text(*self));
    }

    /// The day as ISO 8601 writes it, such as `2015-09-18`.
    pub fn to_string(&self) -> (r: String)
        ensures
            r@ == date_text(*self),
    {
        let mut out = String::new();
        self.push_to(&mut out);
        assert(out@ =~= date_text(*self));
        out
    }
}

} // verus!
