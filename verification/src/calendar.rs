//! Calendar dates for the compliance deadlines: the proleptic Gregorian
//! calendar as `chrono` implements it, carried as plain year, month, day.
use vstd::prelude::*;

use crate::text::{decimal, digit, two_digits};
use chrono::Datelike;

verus! {

/// The earliest year `chrono` represents.
pub const MIN_YEAR: i32 = -262143;

/// The latest year `chrono` represents.
pub const MAX_YEAR: i32 = 262142;

/// A calendar date.
#[derive(Debug, Clone, Copy, PartialEq, Eq, Structural)]
pub struct Date {
    pub year: i32,
    pub month: u32,
    pub day: u32,
}

pub open spec fn is_leap(y: int) -> bool {
    (y % 4 == 0 && y % 100 != 0) || y % 400 == 0
}

pub open spec fn days_in_month(y: int, m: int) -> int {
    if m == 2 {
        if is_leap(y) {
            29
        } else {
            28
        }
    } else if m == 4 || m == 6 || m == 9 || m == 11 {
        30
    } else {
        31
    }
}

/// A date `chrono` can represent.
pub open spec fn valid_date(d: Date) -> bool {
    &&& MIN_YEAR <= d.year <= MAX_YEAR
    &&& 1 <= d.month <= 12
    &&& 1 <= d.day <= days_in_month(d.year as int, d.month as int)
}

/// `a` falls before `b`.
pub open spec fn date_lt(a: Date, b: Date) -> bool {
    a.year < b.year || (a.year == b.year && (a.month < b.month || (a.month == b.month && a.day
        < b.day)))
}

/// The day before `d`.
pub open spec fn prev_day(d: Date) -> Date {
    if d.day > 1 {
        Date { year: d.year, month: d.month, day: (d.day - 1) as u32 }
    } else if d.month > 1 {
        Date {
            year: d.year,
            month: (d.month - 1) as u32,
            day: days_in_month(d.year as int, d.month - 1) as u32,
        }
    } else {
        Date { year: (d.year - 1) as i32, month: 12, day: 31 }
    }
}

/// Days from 1970-01-01 to the date (negative before it). The era is the
/// floor of the year over 400, so years before 0 count as well.
pub open spec fn days_from_civil(y: int, m: int, d: int) -> int {
    let yy = if m <= 2 {
        y - 1
    } else {
        y
    };
    let era = yy / 400;
    let yoe = yy - era * 400;
    let mp = if m > 2 {
        m - 3
    } else {
        m + 9
    };
    let doy = (153 * mp + 2) / 5 + d - 1;
    let doe = yoe * 365 + yoe / 4 - yoe / 100 + doy;
    era * 146097 + doe - 719468
}

/// Four-digit, zero-padded year.
pub open spec fn four_digits(y: nat) -> Seq<char> {
    two_digits(y / 100) + two_digits(y % 100)
}

/// The year as `chrono` writes it: four digits for years 0 to 9999, else a
/// sign and at least four digits.
pub open spec fn year_text(y: int) -> Seq<char> {
    if 0 <= y <= 9999 {
        four_digits(y as nat)
    } else {
        let a: nat = if y < 0 { (-y) as nat } else { y as nat };
        seq![if y < 0 { '-' } else { '+' }] + (if a <= 9999 { four_digits(a) } else { decimal(a) })
    }
}

/// The `YYYY-MM-DD` text of a date, as `chrono` displays it.
pub open spec fn date_text_of(y: int, m: int, d: int) -> Seq<char> {
    year_text(y) + seq!['-'] + two_digits(m as nat) + seq!['-'] + two_digits(d as nat)
}

/// `chrono::NaiveDate::from_ymd_opt`: the date when it exists in the
/// calendar and within `chrono`'s years, else nothing.
#[verifier::external_body]
pub(crate) fn ymd(year: i32, month: u32, day: u32) -> (r: Option<Date>)
    ensures
        r is Some <==> valid_date(Date { year, month, day }),
        r matches Some(d) ==> d == (Date { year, month, day }),
{
    chrono::NaiveDate::from_ymd_opt(year, month, day).map(
        |d| Date { year: d.year(), month: d.month(), day: d.day() },
    )
}

/// `chrono::NaiveDate::pred_opt`: the day before, for every date after the
/// first one `chrono` represents.
#[verifier::external_body]
pub(crate) fn pred(d: Date) -> (r: Option<Date>)
    requires
        valid_date(d),
    ensures
        !(d.year == MIN_YEAR && d.month == 1 && d.day == 1) ==> r == Some(prev_day(d)),
{
    chrono::NaiveDate::from_ymd_opt(d.year, d.month, d.day).and_then(|n| n.pred_opt()).map(
        |p| Date { year: p.year(), month: p.month(), day: p.day() },
    )
}

/// A date `chrono` represents whose day count from 1970-01-01 is `day`.
pub open spec fn dated(d: Date, day: int) -> bool {
    valid_date(d) && days_from_civil(d.year as int, d.month as int, d.day as int) == day
}

/// The UTC calendar date of the instant `secs`: the date its day count
/// (the floor of `secs` over a day's seconds) falls on, when that date lies
/// in `chrono`'s years; none otherwise. Distinct dates have distinct day
/// counts, so the date is unique.
pub open spec fn utc_date_of(secs: int) -> Option<Date> {
    if exists|d: Date| #[trigger] dated(d, secs / 86400) {
        Some(choose|d: Date| #[trigger] dated(d, secs / 86400))
    } else {
        None
    }
}

/// `chrono::DateTime::from_timestamp(secs, 0)`, as a UTC calendar date: it
/// counts whole days from 1970-01-01 by floor division and gives the date
/// of that day number when the date is in its range, and nothing otherwise.
#[verifier::external_body]
pub(crate) fn utc_date(secs: i64) -> (r: Option<Date>)
    ensures
        r == utc_date_of(secs as int),
{
    chrono::DateTime::from_timestamp(secs, 0).map(|t| t.date_naive()).map(
        |d| Date { year: d.year(), month: d.month(), day: d.day() },
    )
}

/// What `chrono::NaiveDate::parse_from_str(text, "%Y-%m-%d")` gives.
pub uninterp spec fn ymd_text_of(text: Seq<char>) -> Option<Date>;

/// `chrono::NaiveDate::parse_from_str` with the format `%Y-%m-%d`. The
/// grammar `chrono` accepts for that format is named, not restated; a date
/// that comes back is one `chrono` represents.
#[verifier::external_body]
pub(crate) fn parse_ymd(text: &str) -> (r: Option<Date>)
    ensures
        r == ymd_text_of(text@),
        r matches Some(d) ==> valid_date(d),
{
    chrono::NaiveDate::parse_from_str(text, "%Y-%m-%d").ok().map(
        |d| Date { year: d.year(), month: d.month(), day: d.day() },
    )
}

/// `NaiveDate`'s `Display`: `YYYY-MM-DD`, the year zero-padded to four
/// digits, with an explicit sign outside the years 0 to 9999.
#[verifier::external_body]
pub(crate) fn date_text(d: Date) -> (r: String)
    requires
        valid_date(d),
    ensures
        r@ == date_text_of(d.year as int, d.month as int, d.day as int),
{
    chrono::NaiveDate::from_ymd_opt(d.year, d.month, d.day).map(|n| n.to_string()).unwrap_or_default()
}

} // verus!

verus! {

/// Unix seconds at 00:00 UTC of `d`: its day count from 1970-01-01 times
/// the seconds of a day.
pub fn midnight_seconds(d: Date) -> (r: i64)
    requires
        valid_date(d),
    ensures
        r == days_from_civil(d.year as int, d.month as int, d.day as int) * 86400,
{
    let y: i64 = d.year as i64;
    let m: i64 = d.month as i64;
    let yy: i64 = if m <= 2 {
        y - 1
    } else {
        y
    };
    // Shifted by a thousand eras so that the division works on a
    // non-negative number.
    let shifted: i64 = yy + 400000;
    let era_shifted: i64 = shifted / 400;
    let yoe: i64 = shifted - era_shifted * 400;
    let mp: i64 = if m > 2 {
        m - 3
    } else {
        m + 9
    };
    let doy: i64 = (153 * mp + 2) / 5 + d.day as i64 - 1;
    let doe: i64 = yoe * 365 + yoe / 4 - yoe / 100 + doy;
    let days: i64 = (era_shifted - 1000) * 146097 + doe - 719468;
    proof {
        let ghost yyi: int = yy as int;
        assert(era_shifted - 1000 == yyi / 400 && yoe == yyi - (yyi / 400) * 400) by (nonlinear_arith)
            requires
                era_shifted == (yyi + 400000) / 400,
                yoe == yyi + 400000 - era_shifted * 400,
        ;
    }
    days * 86400
}

/// The last day of `month` in `year`.
pub fn last_day_of_month(year: i32, month: u32) -> (r: Date)
    requires
        1 <= month <= 12,
        MIN_YEAR <= year < MAX_YEAR,
    ensures
        r == (Date { year, month, day: days_in_month(year as int, month as int) as u32 }),
{
    let (next_year, next_month) = if month == 12 {
        (year + 1, 1u32)
    } else {
        (year, month + 1)
    };
    let first = ymd(next_year, next_month, 1);
    match first {
        Some(f) => {
            let p = pred(f);
            match p {
                Some(d) => d,
                None => {
                    assert(false);
                    f
                },
            }
        },
        None => {
            assert(false);
            Date { year, month, day: 1 }
        },
    }
}

pub open spec fn last_day_spec(year: int, month: int) -> Date {
    Date { year: year as i32, month: month as u32, day: days_in_month(year, month) as u32 }
}

pub open spec fn clamp_month(m: u8) -> u32 {
    if m < 1 {
        1
    } else if m > 12 {
        12
    } else {
        m as u32
    }
}

/// The most recent financial year end on or before `today`, for a year that
/// ends with month `fye_month` (clamped to 1 to 12).
pub open spec fn last_fye_spec(today: Date, fye_month: u8) -> Date {
    let m = clamp_month(fye_month) as int;
    let this_year = last_day_spec(today.year as int, m);
    if !date_lt(today, this_year) {
        this_year
    } else {
        last_day_spec(today.year - 1, m)
    }
}

pub fn last_financial_year_end(today: Date, fye_month: u8) -> (r: Date)
    requires
        valid_date(today),
        MIN_YEAR < today.year < MAX_YEAR,
    ensures
        r == last_fye_spec(today, fye_month),
{
    let month: u32 = if fye_month < 1 {
        1
    } else if fye_month > 12 {
        12
    } else {
        fye_month as u32
    };
    let this_year = last_day_of_month(today.year, month);
    if !before(today, this_year) {
        this_year
    } else {
        last_day_of_month(today.year - 1, month)
    }
}

/// Whether `a` falls before `b`.
pub fn before(a: Date, b: Date) -> (r: bool)
    ensures
        r == date_lt(a, b),
{
    a.year < b.year || (a.year == b.year && (a.month < b.month || (a.month == b.month && a.day
        < b.day)))
}

/// `months` months after `date`, on the same day of the month or the
/// month's last day when it is shorter.
pub open spec fn add_months_spec(date: Date, months: int) -> Date {
    let total = (date.month - 1) + months;
    let year = date.year + total / 12;
    let month = total % 12 + 1;
    let dim = days_in_month(year, month);
    Date {
        year: year as i32,
        month: month as u32,
        day: (if date.day <= dim {
            date.day as int
        } else {
            dim
        }) as u32,
    }
}

pub fn add_months(date: Date, months: u32) -> (r: Date)
    requires
        valid_date(date),
        (date.month - 1) + months <= u32::MAX,
        date.year + ((date.month - 1) + months) / 12 < MAX_YEAR,
    ensures
        r == add_months_spec(date, months as int),
        valid_date(r),
{
    let total = (date.month - 1) + months;
    let year = date.year + (total / 12) as i32;
    let month = total % 12 + 1;
    let last = last_day_of_month(year, month);
    let day = if date.day <= last.day {
        date.day
    } else {
        last.day
    };
    match ymd(year, month, day) {
        Some(d) => d,
        None => {
            assert(false);
            date
        },
    }
}

} // verus!
