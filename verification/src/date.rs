//! Civil (proleptic Gregorian) calendar dates as plain fields, with the
//! day-stepping arithmetic the forecast needs and an ISO-8601 rendering.

use vstd::prelude::*;
use vstd::string::StringExecFns;

verus! {

/// A calendar date: year, month (1..=12) and day of month.
#[derive(Clone, Copy, Debug, PartialEq, Eq, Structural)]
pub struct Date {
    pub year: i32,
    pub month: u8,
    pub day: u8,
}

/// A year is a leap year when it is divisible by 4, except century years,
/// which are leap years only when divisible by 400.
pub open spec fn is_leap_year(y: int) -> bool {
    y % 4 == 0 && (y % 100 != 0 || y % 400 == 0)
}

/// How many days the given month of the given year has.
pub open spec fn days_in_month(y: int, m: int) -> int {
    if m == 2 {
        if is_leap_year(y) {
            29
        } else {
            28
        }
    } else if m == 4 || m == 6 || m == 9 || m == 11 {
        30
    } else {
        31
    }
}

/// A date is valid when its month exists and its day falls inside that month.
pub open spec fn valid_date(d: Date) -> bool {
    1 <= d.month <= 12 && 1 <= d.day <= days_in_month(d.year as int, d.month as int)
}

/// The calendar successor of a date: the next day, rolling over month and
/// year boundaries.
pub open spec fn next_date(d: Date) -> Date {
    if d.day < days_in_month(d.year as int, d.month as int) {
        Date { year: d.year, month: d.month, day: (d.day + 1) as u8 }
    } else if d.month < 12 {
        Date { year: d.year, month: (d.month + 1) as u8, day: 1 }
    } else {
        Date { year: (d.year + 1) as i32, month: 1, day: 1 }
    }
}

/// The date `n` days after `d`.
pub open spec fn date_plus(d: Date, n: nat) -> Date
    decreases n,
{
    if n == 0 {
        d
    } else {
        next_date(date_plus(d, (n - 1) as nat))
    }
}

/// Stepping a valid date forward yields a valid date.
pub proof fn lemma_next_date_valid(d: Date)
    requires
        valid_date(d),
        d.year < i32::MAX,
    ensures
        valid_date(next_date(d)),
{
}

/// Whether `y` is a leap year.
pub fn leap_year(y: i32) -> (r: bool)
    ensures
        r == is_leap_year(y as int),
{
    y % 4 == 0 && (y % 100 != 0 || y % 400 == 0)
}

/// The length in days of month `m` of year `y`.
pub fn month_length(y: i32, m: u8) -> (r: u8)
    requires
        1 <= m <= 12,
    ensures
        r as int == days_in_month(y as int, m as int),
{
    if m == 2 {
        if leap_year(y) {
            29
        } else {
            28
        }
    } else if m == 4 || m == 6 || m == 9 || m == 11 {
        30
    } else {
        31
    }
}

/// The day after `d`.
pub fn next_day(d: Date) -> (r: Date)
    requires
        valid_date(d),
        d.year < i32::MAX,
    ensures
        r == next_date(d),
        valid_date(r),
        d.year <= r.year <= d.year + 1,
{
    proof {
        lemma_next_date_valid(d);
    }
    let len: u8 = month_length(d.year, d.month);
    if d.day < len {
        Date { year: d.year, month: d.month, day: d.day + 1 }
    } else if d.month < 12 {
        Date { year: d.year, month: d.month + 1, day: 1 }
    } else {
        Date { year: d.year + 1, month: 1, day: 1 }
    }
}

/// The date `n` days after `d`.
pub fn add_days(d: Date, n: u32) -> (r: Date)
    requires
        valid_date(d),
        d.year + n <= i32::MAX,
    ensures
        r == date_plus(d, n as nat),
        valid_date(r),
{
    let mut cur: Date = d;
    let mut i: u32 = 0;
    while i < n
        invariant
            i <= n,
            valid_date(d),
            d.year + n <= i32::MAX,
            valid_date(cur),
            cur == date_plus(d, i as nat),
            cur.year <= d.year + i,
        decreases n - i,
    {
        cur = next_day(cur);
        i = i + 1;
    }
    cur
}

/// The decimal digit `d` as a character.
pub open spec fn digit_char(d: int) -> char {
    if d == 0 {
        '0'
    } else if d == 1 {
        '1'
    } else if d == 2 {
        '2'
    } else if d == 3 {
        '3'
    } else if d == 4 {
        '4'
    } else if d == 5 {
        '5'
    } else if d == 6 {
        '6'
    } else if d == 7 {
        '7'
    } else if d == 8 {
        '8'
    } else {
        '9'
    }
}

/// The last two decimal digits of `n`, zero padded.
pub open spec fn two_digit_chars(n: int) -> Seq<char> {
    seq![digit_char(n / 10 % 10), digit_char(n % 10)]
}

/// The last four decimal digits of `n`, zero padded.
pub open spec fn four_digit_chars(n: int) -> Seq<char> {
    seq![
        digit_char(n / 1000 % 10),
        digit_char(n / 100 % 10),
        digit_char(n / 10 % 10),
        digit_char(n % 10),
    ]
}

/// The ISO-8601 rendering of `d`: zero-padded four-digit year, two-digit
/// month and two-digit day, joined with hyphens.
pub open spec fn iso_chars(d: Date) -> Seq<char> {
    four_digit_chars(d.year as int) + seq!['-'] + two_digit_chars(d.month as int) + seq!['-']
        + two_digit_chars(d.day as int)
}

/// `d` written in ISO-8601 calendar-date form, `YYYY-MM-DD`.
pub fn iso_date_string(d: Date) -> (r: String)
    requires
        0 <= d.year <= 9999,
        1 <= d.month <= 12,
        1 <= d.day <= 31,
    ensures
        r@ == iso_chars(d),
{
    let y: u32 = d.year as u32;
    let m: u32 = d.month as u32;
    let day: u32 = d.day as u32;
    let mut s: String = String::new();
    s.append(digit_str(y / 1000 % 10));
    s.append(digit_str(y / 100 % 10));
    s.append(digit_str(y / 10 % 10));
    s.append(digit_str(y % 10));
    s.append(hyphen_str());
    s.append(digit_str(m / 10 % 10));
    s.append(digit_str(m % 10));
    s.append(hyphen_str());
    s.append(digit_str(day / 10 % 10));
    s.append(digit_str(day % 10));
    proof {
        assert(s@ =~= iso_chars(d));
    }
    s
}

/// The single decimal digit `d` as a borrowed string.
pub(crate) fn digit_str(d: u32) -> (r: &'static str)
    requires
        d < 10,
    ensures
        r@ == seq![digit_char(d as int)],
{
    proof {
        reveal_strlit("0");
        reveal_strlit("1");
        reveal_strlit("2");
        reveal_strlit("3");
        reveal_strlit("4");
        reveal_strlit("5");
        reveal_strlit("6");
        reveal_strlit("7");
        reveal_strlit("8");
        reveal_strlit("9");
    }
    if d == 0 {
        "0"
    } else if d == 1 {
        "1"
    } else if d == 2 {
        "2"
    } else if d == 3 {
        "3"
    } else if d == 4 {
        "4"
    } else if d == 5 {
        "5"
    } else if d == 6 {
        "6"
    } else if d == 7 {
        "7"
    } else if d == 8 {
        "8"
    } else {
        "9"
    }
}

/// A hyphen as a borrowed string.
pub(crate) fn hyphen_str() -> (r: &'static str)
    ensures
        r@ == seq!['-'],
{
    proof {
        reveal_strlit("-");
    }
    "-"
}

} // verus!
