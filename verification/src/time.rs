use chrono::{Datelike, Timelike};
use vstd::prelude::*;

use crate::text::{decimal_digits, fixed_digits, push_decimal, push_fixed};

verus! {

/// A calendar date and wall-clock time without a time zone, field by field.
///
/// A `nanosecond` of one billion or more marks a leap second, which can only
/// follow second 59.
#[derive(Debug, PartialEq, Eq, Structural, Clone, Copy)]
pub struct DateTime {
    pub year: i32,
    pub month: u32,
    pub day: u32,
    pub hour: u32,
    pub minute: u32,
    pub second: u32,
    pub nanosecond: u32,
}

/// The earliest year a date can hold.
pub open spec fn min_year() -> int {
    -262143
}

/// The latest year a date can hold.
pub open spec fn max_year() -> int {
    262142
}

/// Leap years of the proleptic Gregorian calendar.
pub open spec fn is_leap_year(year: int) -> bool {
    (year % 4 == 0 && year % 100 != 0) || year % 400 == 0
}

/// The number of days of `month` in `year`.
pub open spec fn days_in_month(year: int, month: int) -> int {
    if month == 2 {
        if is_leap_year(year) {
            29
        } else {
            28
        }
    } else if month == 4 || month == 6 || month == 9 || month == 11 {
        30
    } else {
        31
    }
}

/// The Unix epoch, 1970-01-01 00:00:00.
pub open spec fn epoch() -> DateTime {
    DateTime { year: 1970, month: 1, day: 1, hour: 0, minute: 0, second: 0, nanosecond: 0 }
}

impl DateTime {
    /// The fields describe an existing instant of the calendar.
    pub open spec fn valid(self) -> bool {
        &&& min_year() <= self.year <= max_year()
        &&& 1 <= self.month <= 12
        &&& 1 <= self.day <= days_in_month(self.year as int, self.month as int)
        &&& self.hour < 24
        &&& self.minute < 60
        &&& self.second < 60
        &&& self.nanosecond < 2_000_000_000
        &&& self.nanosecond >= 1_000_000_000 ==> self.second == 59
    }

    /// The Unix epoch, the value that stands for a time that could not be read.
    pub fn epoch() -> (r: DateTime)
        ensures
            r == epoch(),
            r.valid(),
    {
        DateTime { year: 1970, month: 1, day: 1, hour: 0, minute: 0, second: 0, nanosecond: 0 }
    }
}

impl Default for DateTime {
    fn default() -> (r: DateTime)
        ensures
            r == epoch(),
    {
        DateTime::epoch()
    }
}

/// What `chrono::NaiveDateTime::parse_from_str(text, format)` yields, field by field,
/// or `None` where it reports an error.
pub uninterp spec fn chrono_parse(text: Seq<char>, format: Seq<char>) -> Option<DateTime>;

/// Calls `chrono::NaiveDateTime::parse_from_str` and reads the fields of the result.
/// Trusted: the result is the value that `chrono_parse` names for these arguments, and a
/// parsed value is a valid calendar instant (chrono cannot hold any other).
#[verifier::external_body]
fn parse_date_time(text: &str, format: &str) -> (r: Option<DateTime>)
    ensures
        r == chrono_parse(text@, format@),
        r matches Some(t) ==> t.valid(),
{
    match chrono::NaiveDateTime::parse_from_str(text, format) {
        Ok(t) => Some(DateTime {
            year: t.year(), month: t.month(), day: t.day(),
            hour: t.hour(), minute: t.minute(), second: t.second(), nanosecond: t.nanosecond(),
        }),
        Err(_) => None,
    }
}

/// The time that `format_time` reads from `text`: the first of the accepted layouts
/// that parses, in the order `%Y-%m-%d %H:%M:%S`, `%Y-%m-%dT%H:%M:%S`,
/// `%Y-%m-%d %H:%M`, `%Y-%m-%dT%H:%M`; the epoch where none does.
pub open spec fn read_time(text: Seq<char>) -> DateTime {
    if let Some(t) = chrono_parse(text, "%Y-%m-%d %H:%M:%S"@) {
        t
    } else if let Some(t) = chrono_parse(text, "%Y-%m-%dT%H:%M:%S"@) {
        t
    } else if let Some(t) = chrono_parse(text, "%Y-%m-%d %H:%M"@) {
        t
    } else if let Some(t) = chrono_parse(text, "%Y-%m-%dT%H:%M"@) {
        t
    } else {
        epoch()
    }
}

/// Reads a time in one of the accepted layouts (see `read_time`).
pub fn format_time(time: &str) -> (r: DateTime)
    ensures
        r == read_time(time@),
        r.valid(),
{
    if let Some(t) = parse_date_time(time, "%Y-%m-%d %H:%M:%S") {
        return t;
    }
    if let Some(t) = parse_date_time(time, "%Y-%m-%dT%H:%M:%S") {
        return t;
    }
    if let Some(t) = parse_date_time(time, "%Y-%m-%d %H:%M") {
        return t;
    }
    if let Some(t) = parse_date_time(time, "%Y-%m-%dT%H:%M") {
        return t;
    }
    DateTime::epoch()
}

/// A non-negative year as `%Y` writes it: four digits, zero-padded, or all of its
/// digits where it has more than four.
pub open spec fn year_digits(n: nat) -> Seq<char> {
    if n < 10000 {
        fixed_digits(n, 4)
    } else {
        decimal_digits(n)
    }
}

/// A year as `%Y` writes it: a sign only outside 0..=9999.
pub open spec fn year_text(year: int) -> Seq<char> {
    if year < 0 {
        seq!['-'] + year_digits((-year) as nat)
    } else if year <= 9999 {
        fixed_digits(year as nat, 4)
    } else {
        seq!['+'] + decimal_digits(year as nat)
    }
}

/// `t` written in the layout `%Y-%m-%d %H:%M:%S`; a leap second is written as second 60.
pub open spec fn timestamp_text(t: DateTime) -> Seq<char> {
    year_text(t.year as int) + seq!['-'] + fixed_digits(t.month as nat, 2) + seq!['-']
        + fixed_digits(t.day as nat, 2) + seq![' '] + fixed_digits(t.hour as nat, 2) + seq![':']
        + fixed_digits(t.minute as nat, 2) + seq![':'] + fixed_digits(
        (t.second + t.nanosecond / 1_000_000_000) as nat,
        2,
    )
}

/// Appends one separator character.
fn push_separator(s: &mut String, c: char)
    requires
        c == '-' || c == ':' || c == ' ' || c == '+',
    ensures
        final(s)@ == old(s)@.push(c),
{
    let ghost before = s@;
    if c == '-' {
        proof {
            reveal_strlit("-");
        }
        s.append("-");
    } else if c == ':' {
        proof {
            reveal_strlit(":");
        }
        s.append(":");
    } else if c == ' ' {
        proof {
            reveal_strlit(" ");
        }
        s.append(" ");
    } else {
        proof {
            reveal_strlit("+");
        }
        s.append("+");
    }
    assert(s@ =~= before.push(c));
}

/// Writes `t` in the layout `%Y-%m-%d %H:%M:%S`.
pub fn format_timestamp(t: &DateTime) -> (r: String)
    ensures
        r@ == timestamp_text(*t),
{
    let mut s = String::new();
    if t.year < 0 {
        push_separator(&mut s, '-');
        let magnitude: u64 = (0i64 - t.year as i64) as u64;
        if magnitude < 10000 {
            push_fixed(&mut s, magnitude, 4);
        } else {
            push_decimal(&mut s, magnitude);
        }
    } else if t.year <= 9999 {
        push_fixed(&mut s, t.year as u64, 4);
    } else {
        push_separator(&mut s, '+');
        push_decimal(&mut s, t.year as u64);
    }
    assert(s@ =~= year_text(t.year as int));
    push_separator(&mut s, '-');
    push_fixed(&mut s, t.month as u64, 2);
    push_separator(&mut s, '-');
    push_fixed(&mut s, t.day as u64, 2);
    push_separator(&mut s, ' ');
    push_fixed(&mut s, t.hour as u64, 2);
    push_separator(&mut s, ':');
    push_fixed(&mut s, t.minute as u64, 2);
    push_separator(&mut s, ':');
    let shown_second: u64 = t.second as u64 + (t.nanosecond / 1_000_000_000) as u64;
    push_fixed(&mut s, shown_second, 2);
    assert(s@ =~= timestamp_text(*t));
    s
}

/// The number that `%Y%m%d` writes for the date of `t`, read back as a signed integer.
pub open spec fn compact_date(t: DateTime) -> int {
    let month_day = t.month * 100 + t.day;
    if t.year >= 0 {
        t.year * 10000 + month_day
    } else {
        -((-t.year) * 10000 + month_day)
    }
}

/// The date of `t` as the number `%Y%m%d` writes, such as 20240501 for 2024-05-01.
pub fn compact_date_number(t: &DateTime) -> (r: i64)
    ensures
        r == compact_date(*t),
{
    let month_day: i64 = t.month as i64 * 100 + t.day as i64;
    if t.year >= 0 {
        t.year as i64 * 10000 + month_day
    } else {
        -((0i64 - t.year as i64) * 10000 + month_day)
    }
}

} // verus!
