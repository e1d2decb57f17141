//! Timestamps: the current time as UTC calendar fields and as ISO-8601
//! text (`YYYY-MM-DDTHH:MM:SSZ`).
use vstd::prelude::*;

use crate::text::{decimal, digit, digit_char, push_decimal, string_from_chars};

verus! {

pub open spec fn is_leap(y: int) -> bool {
    (y % 4 == 0 && y % 100 != 0) || y % 400 == 0
}

pub open spec fn year_days(y: int) -> int {
    if is_leap(y) {
        366
    } else {
        365
    }
}

pub open spec fn month_days(y: int, m: int) -> int {
    if m == 2 {
        if is_leap(y) {
            29
        } else {
            28
        }
    } else if m == 4 || m == 6 || m == 9 || m == 11 {
        30
    } else {
        31
    }
}

/// Days from 1970-01-01 to the first day of year `y`.
pub open spec fn days_before_year(y: int) -> int
    decreases y - 1970,
{
    if y <= 1970 {
        0
    } else {
        days_before_year(y - 1) + year_days(y - 1)
    }
}

/// Days from the first day of year `y` to the first day of month `m`.
pub open spec fn days_before_month(y: int, m: int) -> int
    decreases m,
{
    if m <= 1 {
        0
    } else {
        days_before_month(y, m - 1) + month_days(y, m - 1)
    }
}

/// A UTC calendar date and time of day.
#[derive(Debug, Clone, Copy)]
pub struct CivilTime {
    pub year: u64,
    pub month: u64,
    pub day: u64,
    pub hour: u64,
    pub minute: u64,
    pub second: u64,
}

/// `c` is the calendar reading of `secs` seconds after 1970-01-01T00:00:00Z.
pub open spec fn is_civil_time_of(c: CivilTime, secs: int) -> bool {
    &&& c.year >= 1970
    &&& 1 <= c.month <= 12
    &&& 1 <= c.day <= month_days(c.year as int, c.month as int)
    &&& days_before_year(c.year as int) + days_before_month(c.year as int, c.month as int) + c.day
        - 1 == secs / 86400
    &&& c.hour == (secs % 86400) / 3600
    &&& c.minute == (secs % 3600) / 60
    &&& c.second == secs % 60
}

/// The calendar reading of a count of seconds since the Unix epoch.
pub fn civil_from_unix(secs: u64) -> (c: CivilTime)
    ensures
        is_civil_time_of(c, secs as int),
{
    let days: u64 = secs / 86400;
    let mut year: u64 = 1970;
    let mut left: u64 = days;
    while left >= year_length(year)
        invariant
            1970 <= year,
            days <= u64::MAX / 86400,
            left <= days,
            year - 1970 <= days - left,
            days_before_year(year as int) + left == days,
        decreases left,
    {
        left = left - year_length(year);
        year = year + 1;
    }
    let mut month: u64 = 1;
    while month < 12 && left >= month_length(year, month)
        invariant
            1 <= month <= 12,
            left < year_days(year as int),
            days_before_year(year as int) + days_before_month(year as int, month as int) + left == days,
            days_before_month(year as int, month as int) + left < year_days(year as int),
        decreases 12 - month,
    {
        left = left - month_length(year, month);
        month = month + 1;
    }
    proof {
        lemma_month_total(year as int);
    }
    let rem: u64 = secs % 86400;
    CivilTime {
        year,
        month,
        day: left + 1,
        hour: rem / 3600,
        minute: (secs % 3600) / 60,
        second: secs % 60,
    }
}

proof fn lemma_month_total(y: int)
    ensures
        days_before_month(y, 12) + month_days(y, 12) == year_days(y),
{
    reveal_with_fuel(days_before_month, 12);
}

fn is_leap_year(y: u64) -> (r: bool)
    ensures
        r == is_leap(y as int),
{
    (y % 4 == 0 && y % 100 != 0) || y % 400 == 0
}

fn year_length(y: u64) -> (r: u64)
    ensures
        r == year_days(y as int),
{
    if is_leap_year(y) {
        366
    } else {
        365
    }
}

fn month_length(y: u64, m: u64) -> (r: u64)
    ensures
        r == month_days(y as int, m as int),
{
    if m == 2 {
        if is_leap_year(y) {
            29
        } else {
            28
        }
    } else if m == 4 || m == 6 || m == 9 || m == 11 {
        30
    } else {
        31
    }
}

/// `n` as exactly two decimal digits (`n < 100`).
pub open spec fn two_digits(n: int) -> Seq<char> {
    seq![digit_char((n / 10) as nat), digit_char((n % 10) as nat)]
}

/// `YYYY-MM-DDTHH:MM:SSZ`, the year in as many digits as it takes.
pub open spec fn iso8601_text(c: CivilTime) -> Seq<char> {
    decimal(c.year as nat) + "-"@ + two_digits(c.month as int) + "-"@ + two_digits(c.day as int)
        + "T"@ + two_digits(c.hour as int) + ":"@ + two_digits(c.minute as int) + ":"@
        + two_digits(c.second as int) + "Z"@
}

fn push_two_digits(out: &mut Vec<char>, n: u64)
    requires
        n < 100,
    ensures
        final(out)@ == old(out)@ + two_digits(n as int),
{
    let tens = n / 10;
    let ones = n % 10;
    let t = digit(tens);
    let o = digit(ones);
    out.push(t);
    out.push(o);
    assert(final(out)@ =~= old(out)@ + two_digits(n as int));
}


/// Renders a calendar reading as ISO-8601 text.
pub fn format_iso8601(c: CivilTime) -> (r: String)
    requires
        c.month < 100,
        c.day < 100,
        c.hour < 100,
        c.minute < 100,
        c.second < 100,
    ensures
        r@ == iso8601_text(c),
{
    let mut out: Vec<char> = Vec::new();
    push_decimal(&mut out, c.year);
    out.push('-');
    push_two_digits(&mut out, c.month);
    out.push('-');
    push_two_digits(&mut out, c.day);
    out.push('T');
    push_two_digits(&mut out, c.hour);
    out.push(':');
    push_two_digits(&mut out, c.minute);
    out.push(':');
    push_two_digits(&mut out, c.second);
    out.push('Z');
    proof {
        reveal_strlit("-");
        reveal_strlit("T");
        reveal_strlit(":");
        reveal_strlit("Z");
    }
    assert(out@ =~= iso8601_text(c));
    string_from_chars(out.as_slice())
}

/// `SystemTime::now()` as whole seconds since the Unix epoch (0 for a
/// clock set before the epoch). Nothing is stated of the value, which
/// depends on the clock.
#[verifier::external_body]
fn unix_seconds_now() -> (r: u64) {
    std::time::SystemTime::now().duration_since(std::time::UNIX_EPOCH).map(|d| d.as_secs()).unwrap_or(0)
}

/// The current UTC time as `YYYY-MM-DDTHH:MM:SSZ`.
pub fn now_iso8601() -> (r: String)
    ensures
        exists|secs: u64, c: CivilTime| is_civil_time_of(c, secs as int) && r@ == iso8601_text(c),
{
    let secs = unix_seconds_now();
    let c = civil_from_unix(secs);
    let r = format_iso8601(c);
    assert(is_civil_time_of(c, secs as int) && r@ == iso8601_text(c));
    r
}

} // verus!
