//! Calendar queries on a date: day of the week, day of the year, length
//! of the month, ISO week number. chrono does the calendar arithmetic.
use vstd::prelude::*;
use chrono::Datelike;
use crate::moment::Date;

verus! {

/// The day number of the earliest representable date (January 1 of the
/// year -262143).
pub const MIN_DAY: i32 = -95_746_129;

/// The day number of the latest representable date (December 31 of the
/// year 262142).
pub const MAX_DAY: i32 = 95_745_399;

/// The earliest representable year.
pub const MIN_YEAR: i32 = -262_143;

/// The latest representable year.
pub const MAX_YEAR: i32 = 262_142;

impl Date {
    /// A date within the representable calendar range.
    pub open spec fn wf(self) -> bool {
        MIN_DAY <= self.days_from_ce <= MAX_DAY
    }

    /// The day of the week, counted from Monday (0) to Sunday (6): day 1,
    /// January 1 of the year 1, was a Monday.
    pub open spec fn weekday_spec(self) -> int {
        (self.days_from_ce - 1) % 7
    }
}

/// The year of the date with day number `days`.
pub uninterp spec fn civil_year(days: int) -> int;

/// The month (1 to 12) of the date with day number `days`.
pub uninterp spec fn civil_month(days: int) -> int;

/// The day of the month (1 to 31) of the date with day number `days`.
pub uninterp spec fn civil_day(days: int) -> int;

/// The day of the year (1 to 366) of the date with day number `days`.
pub uninterp spec fn civil_ordinal(days: int) -> int;

/// The ISO 8601 week number (1 to 53) of the date with day number `days`.
pub uninterp spec fn civil_iso_week(days: int) -> int;

/// The day number of the date `year`-`month`-`day`, or `None` when there
/// is no such date in the representable range.
pub uninterp spec fn civil_from_ymd(year: int, month: int, day: int) -> Option<int>;

/// Relies on `chrono::NaiveDate::from_num_days_from_ce_opt` and
/// `Datelike::weekday`: a date exists exactly within the range, and day 1
/// is a Monday.
#[verifier::external_body]
fn weekday_from_monday(d: Date) -> (r: Option<u32>)
    ensures
        r == (if d.wf() { Some(d.weekday_spec() as u32) } else { None::<u32> }),
{
    let date = chrono::NaiveDate::from_num_days_from_ce_opt(d.days_from_ce)?;
    Some(date.weekday().num_days_from_monday())
}

/// Relies on `Datelike::year` of the `chrono::NaiveDate` with this day
/// number: a year within the representable range.
#[verifier::external_body]
fn year_of(d: Date) -> (r: Option<i32>)
    ensures
        r is Some <==> d.wf(),
        r matches Some(y) ==> y == civil_year(d.days_from_ce as int) && MIN_YEAR <= y <= MAX_YEAR,
{
    let date = chrono::NaiveDate::from_num_days_from_ce_opt(d.days_from_ce)?;
    Some(date.year())
}

/// Relies on `Datelike::month` of the `chrono::NaiveDate` with this day
/// number: a month from 1 to 12.
#[verifier::external_body]
fn month_of(d: Date) -> (r: Option<u32>)
    ensures
        r is Some <==> d.wf(),
        r matches Some(m) ==> m == civil_month(d.days_from_ce as int) && 1 <= m <= 12,
{
    let date = chrono::NaiveDate::from_num_days_from_ce_opt(d.days_from_ce)?;
    Some(date.month())
}

/// Relies on `Datelike::day` of the `chrono::NaiveDate` with this day
/// number: a day of the month from 1 to 31.
#[verifier::external_body]
fn day_of(d: Date) -> (r: Option<u32>)
    ensures
        r is Some <==> d.wf(),
        r matches Some(x) ==> x == civil_day(d.days_from_ce as int) && 1 <= x <= 31,
{
    let date = chrono::NaiveDate::from_num_days_from_ce_opt(d.days_from_ce)?;
    Some(date.day())
}

/// Relies on `Datelike::ordinal` of the `chrono::NaiveDate` with this day
/// number: a day of the year from 1 to 366.
#[verifier::external_body]
fn ordinal_of(d: Date) -> (r: Option<u32>)
    ensures
        r is Some <==> d.wf(),
        r matches Some(x) ==> x == civil_ordinal(d.days_from_ce as int) && 1 <= x <= 366,
{
    let date = chrono::NaiveDate::from_num_days_from_ce_opt(d.days_from_ce)?;
    Some(date.ordinal())
}

/// Relies on `Datelike::iso_week` and `IsoWeek::week` of the
/// `chrono::NaiveDate` with this day number: a week number from 1 to 53.
#[verifier::external_body]
fn iso_week_of(d: Date) -> (r: Option<u32>)
    ensures
        r is Some <==> d.wf(),
        r matches Some(x) ==> x == civil_iso_week(d.days_from_ce as int) && 1 <= x <= 53,
{
    let date = chrono::NaiveDate::from_num_days_from_ce_opt(d.days_from_ce)?;
    Some(date.iso_week().week())
}

/// Relies on `chrono::NaiveDate::from_ymd_opt`: `None` for a date that does
/// not exist or lies outside the range; every month of a representable
/// year has days 1 to 28.
#[verifier::external_body]
fn from_ymd(year: i32, month: u32, day: u32) -> (r: Option<Date>)
    ensures
        r matches Some(x) ==> x.wf() && civil_from_ymd(year as int, month as int, day as int)
            == Some(x.days_from_ce as int),
        r is None ==> civil_from_ymd(year as int, month as int, day as int) is None,
        MIN_YEAR <= year <= MAX_YEAR && 1 <= month <= 12 && 1 <= day <= 28 ==> r is Some,
{
    let date = chrono::NaiveDate::from_ymd_opt(year, month, day)?;
    Some(Date { days_from_ce: date.num_days_from_ce() })
}

/// Is `year` a leap year of the Gregorian calendar?
pub open spec fn leap_year(year: int) -> bool {
    year % 4 == 0 && (year % 100 != 0 || year % 400 == 0)
}

/// The number of days in `month` (1 to 12) of `year`.
pub open spec fn month_length(year: int, month: int) -> int {
    if month == 2 {
        if leap_year(year) {
            29
        } else {
            28
        }
    } else if month == 4 || month == 6 || month == 9 || month == 11 {
        30
    } else {
        31
    }
}

/// Months since January of the year 0 of the date with day number `days`.
pub open spec fn month_index(days: int) -> int {
    civil_year(days) * 12 + civil_month(days) - 1
}

/// Year, month and day of the date `k` calendar months after the date with
/// day number `days` (before it, when `k` is negative). The day is kept,
/// or clamped to the last day of a shorter month.
pub open spec fn months_later(days: int, k: int) -> (int, int, int) {
    let index = month_index(days) + k;
    let year = index / 12;
    let month = index % 12 + 1;
    let day = civil_day(days);
    let last = month_length(year, month);
    (year, month, if day > last { last } else { day })
}

/// Is `to` the day number of the date `k` calendar months after the date
/// with day number `from`?
pub open spec fn is_months_later(from: int, to: int, k: int) -> bool {
    let (year, month, day) = months_later(from, k);
    &&& civil_from_ymd(year, month, day) == Some(to)
    &&& civil_year(to) == year
    &&& civil_month(to) == month
    &&& civil_day(to) == day
}

/// The year and month that follow `month` of `year`.
pub open spec fn next_month(year: int, month: int) -> (int, int) {
    if month == 12 {
        (year + 1, 1)
    } else {
        (year, month + 1)
    }
}

/// The number of days in the month of `d`: the day of the month of the
/// day before the first of the following month. The last month of the
/// range, whose following month cannot be represented, is a December: 31.
pub open spec fn days_in_month_spec(d: Date) -> int {
    let (y, m) = next_month(civil_year(d.days_from_ce as int), civil_month(d.days_from_ce as int));
    match civil_from_ymd(y, m, 1) {
        Some(first) => if first - 1 >= MIN_DAY {
            civil_day(first - 1)
        } else {
            31
        },
        None => 31,
    }
}

/// Is `date` a Saturday or a Sunday?
pub fn is_weekend(date: Date) -> (r: bool)
    requires
        date.wf(),
    ensures
        r == (date.weekday_spec() >= 5),
{
    match weekday_from_monday(date) {
        Some(w) => w >= 5,
        None => false,
    }
}

/// Is `date` a day from Monday to Friday?
pub fn is_weekday(date: Date) -> (r: bool)
    requires
        date.wf(),
    ensures
        r == (date.weekday_spec() < 5),
{
    !is_weekend(date)
}

/// The day of the year, from 1 (January 1) to 365 or 366 (December 31).
pub fn day_of_year(date: Date) -> (r: u32)
    requires
        date.wf(),
    ensures
        r == civil_ordinal(date.days_from_ce as int),
        1 <= r <= 366,
{
    match ordinal_of(date) {
        Some(x) => x,
        None => 1,
    }
}

/// The number of days (28 to 31) in the month of `date`.
pub fn days_in_month(date: Date) -> (r: u32)
    requires
        date.wf(),
    ensures
        r == days_in_month_spec(date),
{
    let (year, month) = match (year_of(date), month_of(date)) {
        (Some(y), Some(m)) => (y, m),
        _ => (0, 1),
    };
    let (next_year, next_mon) = if month == 12 {
        (year + 1, 1)
    } else {
        (year, month + 1)
    };
    match from_ymd(next_year, next_mon, 1) {
        Some(first) => if first.days_from_ce - 1 >= MIN_DAY {
            match day_of(Date { days_from_ce: first.days_from_ce - 1 }) {
                Some(x) => x,
                None => 31,
            }
        } else {
            31
        },
        None => 31,
    }
}

/// The ISO 8601 week number (1 to 53): weeks start on Monday, and the
/// first week of a year is the one that holds its first Thursday.
pub fn week_of_year(date: Date) -> (r: u32)
    requires
        date.wf(),
    ensures
        r == civil_iso_week(date.days_from_ce as int),
        1 <= r <= 53,
{
    match iso_week_of(date) {
        Some(x) => x,
        None => 1,
    }
}

} // verus!
