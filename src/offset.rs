//! The offset engine: `<unit>_ago(n)` and `<unit>_from_now(n)` for seconds
//! through years. Each call validates the magnitude, converts it into a
//! shift (a number of seconds, or of calendar months), and applies that
//! shift to the current moment.
use vstd::prelude::*;
use crate::clock::{
    checked_add_months, checked_add_seconds, checked_sub_months, checked_sub_seconds, delta_of,
    local_now, try_days, try_hours, try_minutes, try_seconds, try_weeks, MAX_DELTA_SECS,
};
use crate::date::{civil_day, civil_month, civil_year, is_months_later, month_index, month_length};
use crate::error::{magnitude, validate_non_negative, PeriodError};
use crate::moment::{
    day_number, in_range, MIN_TIMESTAMP, lemma_date_bounds, lemma_day_number_shift, Date, Moment, Relative,
    SECS_PER_DAY,
};

verus! {

/// The units an offset can be counted in.
#[derive(Clone, Copy, Debug, PartialEq, Eq, Hash)]
pub enum Unit {
    Seconds,
    Minutes,
    Hours,
    Days,
    Weeks,
    Months,
    Years,
}

/// Which way from the current moment an offset points.
#[derive(Clone, Copy, Debug, PartialEq, Eq, Hash)]
pub enum Direction {
    /// Into the past: `<unit>_ago`.
    Ago,
    /// Into the future: `<unit>_from_now`.
    FromNow,
}

/// What an offset amounts to once its magnitude has been converted.
#[derive(Clone, Copy, Debug, PartialEq, Eq, Hash)]
pub enum Shift {
    /// A fixed number of seconds.
    Seconds(i64),
    /// A number of calendar months.
    Months(u32),
}

/// The name of a unit, as error messages spell it.
pub open spec fn unit_label(u: Unit) -> &'static str {
    match u {
        Unit::Seconds => "seconds",
        Unit::Minutes => "minutes",
        Unit::Hours => "hours",
        Unit::Days => "days",
        Unit::Weeks => "weeks",
        Unit::Months => "months",
        Unit::Years => "years",
    }
}

/// The name of the function that points the other way: the suggestion
/// made when a negative magnitude is given.
pub open spec fn mirror_label(u: Unit, dir: Direction) -> &'static str {
    match dir {
        Direction::Ago => match u {
            Unit::Seconds => "seconds_from_now",
            Unit::Minutes => "minutes_from_now",
            Unit::Hours => "hours_from_now",
            Unit::Days => "days_from_now",
            Unit::Weeks => "weeks_from_now",
            Unit::Months => "months_from_now",
            Unit::Years => "years_from_now",
        },
        Direction::FromNow => match u {
            Unit::Seconds => "seconds_ago",
            Unit::Minutes => "minutes_ago",
            Unit::Hours => "hours_ago",
            Unit::Days => "days_ago",
            Unit::Weeks => "weeks_ago",
            Unit::Months => "months_ago",
            Unit::Years => "years_ago",
        },
    }
}

/// Seconds in one unit, for the units of fixed length.
pub open spec fn unit_seconds(u: Unit) -> int {
    match u {
        Unit::Seconds => 1,
        Unit::Minutes => 60,
        Unit::Hours => 3600,
        Unit::Days => 86400,
        Unit::Weeks => 604800,
        Unit::Months => 0,
        Unit::Years => 0,
    }
}

/// Is the unit one of calendar months (months, years)?
pub open spec fn is_calendar(u: Unit) -> bool {
    u == Unit::Months || u == Unit::Years
}

/// Months in `n` units of a calendar unit.
pub open spec fn month_count(u: Unit, n: int) -> int {
    if u == Unit::Years {
        n * 12
    } else {
        n
    }
}

/// The overflow error for `n` units of `u`.
pub open spec fn overflow(u: Unit, n: i64) -> PeriodError {
    PeriodError::Overflow { unit: unit_label(u), value: n }
}

/// Validation and conversion: the shift that `n` units of `u` amount to,
/// or why there is none.
pub open spec fn plan_spec(u: Unit, dir: Direction, n: i64) -> Result<Shift, PeriodError> {
    if n < 0 {
        Err(
            PeriodError::NegativeValue {
                unit: unit_label(u),
                suggestion: mirror_label(u, dir),
                value: magnitude(n),
            },
        )
    } else if is_calendar(u) {
        if month_count(u, n as int) <= u32::MAX {
            Ok(Shift::Months(month_count(u, n as int) as u32))
        } else {
            Err(overflow(u, n))
        }
    } else {
        match delta_of(n as int, unit_seconds(u)) {
            Some(s) => Ok(Shift::Seconds(s)),
            None => Err(overflow(u, n)),
        }
    }
}

/// The timestamp that a shift of `s` seconds in direction `dir` leads to.
pub open spec fn target_secs(now_secs: int, dir: Direction, s: int) -> int {
    match dir {
        Direction::Ago => now_secs - s,
        Direction::FromNow => now_secs + s,
    }
}

/// A count of months, negative when it points into the past.
pub open spec fn signed_months(dir: Direction, k: int) -> int {
    match dir {
        Direction::Ago => -k,
        Direction::FromNow => k,
    }
}

/// What resolving `n` units of `u` in direction `dir` from `now` gives.
/// A fixed shift lands exactly `s` seconds away and fails only outside the
/// calendar range. A calendar shift is made by chrono in the local time
/// zone: it reaches the date that many calendar months away (the day
/// clamped to the end of a shorter month) at the same local time of day,
/// and fails (with the overflow error) when chrono finds no such local time.
pub open spec fn resolves(
    now: Moment,
    u: Unit,
    dir: Direction,
    n: i64,
    r: Result<Relative, PeriodError>,
) -> bool {
    match plan_spec(u, dir, n) {
        Err(e) => r == Err::<Relative, PeriodError>(e),
        Ok(Shift::Seconds(s)) => {
            let t = target_secs(now.secs as int, dir, s as int);
            &&& r is Ok <==> in_range(t)
            &&& r is Err ==> r == Err::<Relative, PeriodError>(overflow(u, n))
            &&& r matches Ok(rel) ==> rel@.secs == t && rel@.nanos == now.nanos
        },
        Ok(Shift::Months(k)) => {
            &&& r is Err ==> r == Err::<Relative, PeriodError>(overflow(u, n))
            &&& r matches Ok(rel) ==> {
                &&& rel@.nanos == now.nanos
                &&& rel@.time_spec() == now.time_spec()
                &&& is_months_later(
                    now.date_spec().days_from_ce as int,
                    rel@.date_spec().days_from_ce as int,
                    signed_months(dir, k as int),
                )
                &&& k > 0 && dir == Direction::Ago ==> rel@.secs < now.secs
                &&& k > 0 && dir == Direction::FromNow ==> rel@.secs > now.secs
            }
        },
    }
}

fn unit_name(u: Unit) -> (r: &'static str)
    ensures
        r == unit_label(u),
{
    match u {
        Unit::Seconds => "seconds",
        Unit::Minutes => "minutes",
        Unit::Hours => "hours",
        Unit::Days => "days",
        Unit::Weeks => "weeks",
        Unit::Months => "months",
        Unit::Years => "years",
    }
}

fn mirror_name(u: Unit, dir: Direction) -> (r: &'static str)
    ensures
        r == mirror_label(u, dir),
{
    match dir {
        Direction::Ago => match u {
            Unit::Seconds => "seconds_from_now",
            Unit::Minutes => "minutes_from_now",
            Unit::Hours => "hours_from_now",
            Unit::Days => "days_from_now",
            Unit::Weeks => "weeks_from_now",
            Unit::Months => "months_from_now",
            Unit::Years => "years_from_now",
        },
        Direction::FromNow => match u {
            Unit::Seconds => "seconds_ago",
            Unit::Minutes => "minutes_ago",
            Unit::Hours => "hours_ago",
            Unit::Days => "days_ago",
            Unit::Weeks => "weeks_ago",
            Unit::Months => "months_ago",
            Unit::Years => "years_ago",
        },
    }
}

/// Validates `n` and converts it into the shift it amounts to.
pub fn plan(u: Unit, dir: Direction, n: i64) -> (r: Result<Shift, PeriodError>)
    ensures
        r == plan_spec(u, dir, n),
{
    let label = unit_name(u);
    match validate_non_negative(n, label, mirror_name(u, dir)) {
        Err(e) => {
            return Err(e);
        },
        Ok(()) => {},
    }
    let seconds = match u {
        Unit::Seconds => try_seconds(n),
        Unit::Minutes => try_minutes(n),
        Unit::Hours => try_hours(n),
        Unit::Days => try_days(n),
        Unit::Weeks => try_weeks(n),
        Unit::Months => {
            return if n <= u32::MAX as i64 {
                Ok(Shift::Months(n as u32))
            } else {
                Err(PeriodError::Overflow { unit: label, value: n })
            };
        },
        Unit::Years => {
            return match n.checked_mul(12) {
                Some(m) if m <= u32::MAX as i64 => Ok(Shift::Months(m as u32)),
                _ => Err(PeriodError::Overflow { unit: label, value: n }),
            };
        },
    };
    match seconds {
        Some(s) => Ok(Shift::Seconds(s)),
        None => Err(PeriodError::Overflow { unit: label, value: n }),
    }
}

/// Turns what chrono returned for a shift into the offset's result: the
/// moment it reached, or an overflow error when it reached none.
fn settle(reached: Option<Moment>, u: Unit, n: i64) -> (r: Result<Relative, PeriodError>)
    requires
        reached matches Some(m) ==> m.wf(),
    ensures
        r matches Ok(rel) ==> reached == Some(rel@),
        reached is None ==> r == Err::<Relative, PeriodError>(overflow(u, n)),
        r is Ok <==> reached is Some,
{
    match reached {
        Some(m) => Ok(Relative::resolved(m)),
        None => Err(PeriodError::Overflow { unit: unit_name(u), value: n }),
    }
}

/// Resolves `n` units of `u` in direction `dir` from the moment `now`.
pub fn resolve_at(now: Moment, u: Unit, dir: Direction, n: i64) -> (r: Result<
    Relative,
    PeriodError,
>)
    requires
        now.wf(),
    ensures
        resolves(now, u, dir, n, r),
{
    let shift = match plan(u, dir, n) {
        Err(e) => {
            return Err(e);
        },
        Ok(s) => s,
    };
    let reached = match shift {
        Shift::Seconds(s) => match dir {
            Direction::Ago => checked_sub_seconds(now, s),
            Direction::FromNow => checked_add_seconds(now, s),
        },
        Shift::Months(k) => match dir {
            Direction::Ago => checked_sub_months(now, k),
            Direction::FromNow => checked_add_months(now, k),
        },
    };
    settle(reached, u, n)
}

/// Reads the clock and resolves `n` units of `u` in direction `dir` from
/// the current moment.
fn resolve_now(u: Unit, dir: Direction, n: i64) -> (r: Result<Relative, PeriodError>)
    ensures
        exists|now: Moment|
            now.wf() && now.secs >= 0 && #[trigger] resolves(now, u, dir, n, r),
{
    let now = local_now();
    let r = resolve_at(now, u, dir, n);
    assert(resolves(now, u, dir, n, r));
    r
}

/// Resolves a moment `seconds` seconds in the past: `0` gives the current moment.
/// The clock never reads before 1970, so every shift back to the earliest
/// representable second succeeds.
/// A negative count is refused with a suggestion to call `seconds_from_now`.
pub fn seconds_ago(seconds: i64) -> (r: Result<Relative, PeriodError>)
    ensures
        0 <= seconds && seconds <= -MIN_TIMESTAMP ==> r is Ok,
        exists|now: Moment|
            now.wf() && now.secs >= 0 && #[trigger] resolves(now, Unit::Seconds, Direction::Ago, seconds, r),
        seconds < 0 ==> r == Err::<Relative, PeriodError>(
            PeriodError::NegativeValue {
                unit: "seconds",
                suggestion: "seconds_from_now",
                value: magnitude(seconds),
            },
        ),
        seconds > MAX_DELTA_SECS ==> r == Err::<Relative, PeriodError>(
            overflow(Unit::Seconds, seconds),
        ),
{
    resolve_now(Unit::Seconds, Direction::Ago, seconds)
}

/// Resolves a moment `seconds` seconds in the future: `0` gives the current moment.
/// A negative count is refused with a suggestion to call `seconds_ago`.
pub fn seconds_from_now(seconds: i64) -> (r: Result<Relative, PeriodError>)
    ensures
        exists|now: Moment|
            now.wf() && now.secs >= 0 && #[trigger] resolves(now, Unit::Seconds, Direction::FromNow, seconds, r),
        seconds < 0 ==> r == Err::<Relative, PeriodError>(
            PeriodError::NegativeValue {
                unit: "seconds",
                suggestion: "seconds_ago",
                value: magnitude(seconds),
            },
        ),
        seconds > MAX_DELTA_SECS ==> r == Err::<Relative, PeriodError>(
            overflow(Unit::Seconds, seconds),
        ),
{
    resolve_now(Unit::Seconds, Direction::FromNow, seconds)
}

/// Resolves a moment `minutes` minutes in the past: `0` gives the current moment.
/// The clock never reads before 1970, so every shift back to the earliest
/// representable second succeeds.
/// A negative count is refused with a suggestion to call `minutes_from_now`.
pub fn minutes_ago(minutes: i64) -> (r: Result<Relative, PeriodError>)
    ensures
        0 <= minutes && minutes as int * 60 <= -MIN_TIMESTAMP ==> r is Ok,
        exists|now: Moment|
            now.wf() && now.secs >= 0 && #[trigger] resolves(now, Unit::Minutes, Direction::Ago, minutes, r),
        minutes < 0 ==> r == Err::<Relative, PeriodError>(
            PeriodError::NegativeValue {
                unit: "minutes",
                suggestion: "minutes_from_now",
                value: magnitude(minutes),
            },
        ),
        minutes as int * 60 > MAX_DELTA_SECS ==> r == Err::<Relative, PeriodError>(
            overflow(Unit::Minutes, minutes),
        ),
{
    resolve_now(Unit::Minutes, Direction::Ago, minutes)
}

/// Resolves a moment `minutes` minutes in the future: `0` gives the current moment.
/// A negative count is refused with a suggestion to call `minutes_ago`.
pub fn minutes_from_now(minutes: i64) -> (r: Result<Relative, PeriodError>)
    ensures
        exists|now: Moment|
            now.wf() && now.secs >= 0 && #[trigger] resolves(now, Unit::Minutes, Direction::FromNow, minutes, r),
        minutes < 0 ==> r == Err::<Relative, PeriodError>(
            PeriodError::NegativeValue {
                unit: "minutes",
                suggestion: "minutes_ago",
                value: magnitude(minutes),
            },
        ),
        minutes as int * 60 > MAX_DELTA_SECS ==> r == Err::<Relative, PeriodError>(
            overflow(Unit::Minutes, minutes),
        ),
{
    resolve_now(Unit::Minutes, Direction::FromNow, minutes)
}

/// Resolves a moment `hours` hours in the past: `0` gives the current moment.
/// The clock never reads before 1970, so every shift back to the earliest
/// representable second succeeds.
/// A negative count is refused with a suggestion to call `hours_from_now`.
pub fn hours_ago(hours: i64) -> (r: Result<Relative, PeriodError>)
    ensures
        0 <= hours && hours as int * 3600 <= -MIN_TIMESTAMP ==> r is Ok,
        exists|now: Moment|
            now.wf() && now.secs >= 0 && #[trigger] resolves(now, Unit::Hours, Direction::Ago, hours, r),
        hours < 0 ==> r == Err::<Relative, PeriodError>(
            PeriodError::NegativeValue {
                unit: "hours",
                suggestion: "hours_from_now",
                value: magnitude(hours),
            },
        ),
        hours as int * 3600 > MAX_DELTA_SECS ==> r == Err::<Relative, PeriodError>(
            overflow(Unit::Hours, hours),
        ),
{
    resolve_now(Unit::Hours, Direction::Ago, hours)
}

/// Resolves a moment `hours` hours in the future: `0` gives the current moment.
/// A negative count is refused with a suggestion to call `hours_ago`.
pub fn hours_from_now(hours: i64) -> (r: Result<Relative, PeriodError>)
    ensures
        exists|now: Moment|
            now.wf() && now.secs >= 0 && #[trigger] resolves(now, Unit::Hours, Direction::FromNow, hours, r),
        hours < 0 ==> r == Err::<Relative, PeriodError>(
            PeriodError::NegativeValue {
                unit: "hours",
                suggestion: "hours_ago",
                value: magnitude(hours),
            },
        ),
        hours as int * 3600 > MAX_DELTA_SECS ==> r == Err::<Relative, PeriodError>(
            overflow(Unit::Hours, hours),
        ),
{
    resolve_now(Unit::Hours, Direction::FromNow, hours)
}

/// Resolves a moment `days` days in the past: `0` gives the current moment.
/// The clock never reads before 1970, so every shift back to the earliest
/// representable second succeeds.
/// A negative count is refused with a suggestion to call `days_from_now`.
pub fn days_ago(days: i64) -> (r: Result<Relative, PeriodError>)
    ensures
        0 <= days && days as int * 86400 <= -MIN_TIMESTAMP ==> r is Ok,
        exists|now: Moment|
            now.wf() && now.secs >= 0 && #[trigger] resolves(now, Unit::Days, Direction::Ago, days, r),
        days < 0 ==> r == Err::<Relative, PeriodError>(
            PeriodError::NegativeValue {
                unit: "days",
                suggestion: "days_from_now",
                value: magnitude(days),
            },
        ),
        days as int * 86400 > MAX_DELTA_SECS ==> r == Err::<Relative, PeriodError>(
            overflow(Unit::Days, days),
        ),
{
    resolve_now(Unit::Days, Direction::Ago, days)
}

/// Resolves a moment `days` days in the future: `0` gives the current moment.
/// A negative count is refused with a suggestion to call `days_ago`.
pub fn days_from_now(days: i64) -> (r: Result<Relative, PeriodError>)
    ensures
        exists|now: Moment|
            now.wf() && now.secs >= 0 && #[trigger] resolves(now, Unit::Days, Direction::FromNow, days, r),
        days < 0 ==> r == Err::<Relative, PeriodError>(
            PeriodError::NegativeValue {
                unit: "days",
                suggestion: "days_ago",
                value: magnitude(days),
            },
        ),
        days as int * 86400 > MAX_DELTA_SECS ==> r == Err::<Relative, PeriodError>(
            overflow(Unit::Days, days),
        ),
{
    resolve_now(Unit::Days, Direction::FromNow, days)
}

/// Resolves a moment `weeks` weeks in the past: `0` gives the current moment.
/// The clock never reads before 1970, so every shift back to the earliest
/// representable second succeeds.
/// A negative count is refused with a suggestion to call `weeks_from_now`.
pub fn weeks_ago(weeks: i64) -> (r: Result<Relative, PeriodError>)
    ensures
        0 <= weeks && weeks as int * 604800 <= -MIN_TIMESTAMP ==> r is Ok,
        exists|now: Moment|
            now.wf() && now.secs >= 0 && #[trigger] resolves(now, Unit::Weeks, Direction::Ago, weeks, r),
        weeks < 0 ==> r == Err::<Relative, PeriodError>(
            PeriodError::NegativeValue {
                unit: "weeks",
                suggestion: "weeks_from_now",
                value: magnitude(weeks),
            },
        ),
        weeks as int * 604800 > MAX_DELTA_SECS ==> r == Err::<Relative, PeriodError>(
            overflow(Unit::Weeks, weeks),
        ),
{
    resolve_now(Unit::Weeks, Direction::Ago, weeks)
}

/// Resolves a moment `weeks` weeks in the future: `0` gives the current moment.
/// A negative count is refused with a suggestion to call `weeks_ago`.
pub fn weeks_from_now(weeks: i64) -> (r: Result<Relative, PeriodError>)
    ensures
        exists|now: Moment|
            now.wf() && now.secs >= 0 && #[trigger] resolves(now, Unit::Weeks, Direction::FromNow, weeks, r),
        weeks < 0 ==> r == Err::<Relative, PeriodError>(
            PeriodError::NegativeValue {
                unit: "weeks",
                suggestion: "weeks_ago",
                value: magnitude(weeks),
            },
        ),
        weeks as int * 604800 > MAX_DELTA_SECS ==> r == Err::<Relative, PeriodError>(
            overflow(Unit::Weeks, weeks),
        ),
{
    resolve_now(Unit::Weeks, Direction::FromNow, weeks)
}

/// Resolves a moment `months` calendar months in the past: `0` gives the current moment.
/// A negative count is refused with a suggestion to call `months_from_now`.
pub fn months_ago(months: i64) -> (r: Result<Relative, PeriodError>)
    ensures
        exists|now: Moment|
            now.wf() && now.secs >= 0 && #[trigger] resolves(now, Unit::Months, Direction::Ago, months, r),
        months < 0 ==> r == Err::<Relative, PeriodError>(
            PeriodError::NegativeValue {
                unit: "months",
                suggestion: "months_from_now",
                value: magnitude(months),
            },
        ),
        months > u32::MAX ==> r == Err::<Relative, PeriodError>(overflow(Unit::Months, months)),
{
    resolve_now(Unit::Months, Direction::Ago, months)
}

/// Resolves a moment `months` calendar months in the future: `0` gives the current moment.
/// A negative count is refused with a suggestion to call `months_ago`.
pub fn months_from_now(months: i64) -> (r: Result<Relative, PeriodError>)
    ensures
        exists|now: Moment|
            now.wf() && now.secs >= 0 && #[trigger] resolves(now, Unit::Months, Direction::FromNow, months, r),
        months < 0 ==> r == Err::<Relative, PeriodError>(
            PeriodError::NegativeValue {
                unit: "months",
                suggestion: "months_ago",
                value: magnitude(months),
            },
        ),
        months > u32::MAX ==> r == Err::<Relative, PeriodError>(overflow(Unit::Months, months)),
{
    resolve_now(Unit::Months, Direction::FromNow, months)
}

/// Resolves a moment `years` calendar years in the past: `0` gives the current moment.
/// Years are converted into months (twelve each) first.
/// A negative count is refused with a suggestion to call `years_from_now`.
pub fn years_ago(years: i64) -> (r: Result<Relative, PeriodError>)
    ensures
        exists|now: Moment|
            now.wf() && now.secs >= 0 && #[trigger] resolves(now, Unit::Years, Direction::Ago, years, r),
        years < 0 ==> r == Err::<Relative, PeriodError>(
            PeriodError::NegativeValue {
                unit: "years",
                suggestion: "years_from_now",
                value: magnitude(years),
            },
        ),
        years as int * 12 > u32::MAX ==> r == Err::<Relative, PeriodError>(
            overflow(Unit::Years, years),
        ),
{
    resolve_now(Unit::Years, Direction::Ago, years)
}

/// Resolves a moment `years` calendar years in the future: `0` gives the current moment.
/// Years are converted into months (twelve each) first.
/// A negative count is refused with a suggestion to call `years_ago`.
pub fn years_from_now(years: i64) -> (r: Result<Relative, PeriodError>)
    ensures
        exists|now: Moment|
            now.wf() && now.secs >= 0 && #[trigger] resolves(now, Unit::Years, Direction::FromNow, years, r),
        years < 0 ==> r == Err::<Relative, PeriodError>(
            PeriodError::NegativeValue {
                unit: "years",
                suggestion: "years_ago",
                value: magnitude(years),
            },
        ),
        years as int * 12 > u32::MAX ==> r == Err::<Relative, PeriodError>(
            overflow(Unit::Years, years),
        ),
{
    resolve_now(Unit::Years, Direction::FromNow, years)
}

/// The local date one calendar day before the date of `now`.
pub open spec fn yesterday_of(now: Moment) -> Date {
    Date { days_from_ce: (now.date_spec().days_from_ce - 1) as i32 }
}

/// The local date one calendar day after the date of `now`.
pub open spec fn tomorrow_of(now: Moment) -> Date {
    Date { days_from_ce: (now.date_spec().days_from_ce + 1) as i32 }
}

/// Yesterday's local date.
pub fn yesterday() -> (r: Date)
    ensures
        exists|now: Moment| now.wf() && now.secs >= 0 && r == #[trigger] yesterday_of(now),
{
    let now = local_now();
    let today = now.date();
    let r = Date { days_from_ce: today.days_from_ce - 1 };
    assert(r == yesterday_of(now));
    r
}

/// Tomorrow's local date.
pub fn tomorrow() -> (r: Date)
    ensures
        exists|now: Moment| now.wf() && now.secs >= 0 && r == #[trigger] tomorrow_of(now),
{
    let now = local_now();
    let today = now.date();
    let r = Date { days_from_ce: today.days_from_ce + 1 };
    assert(r == tomorrow_of(now));
    r
}

/// Seen from one moment, yesterday is exactly one calendar day before
/// today, tomorrow one day after, and tomorrow two days after yesterday.
pub proof fn lemma_yesterday_today_tomorrow(now: Moment)
    requires
        now.wf(),
    ensures
        yesterday_of(now).days_from_ce == now.date_spec().days_from_ce - 1,
        tomorrow_of(now).days_from_ce == now.date_spec().days_from_ce + 1,
        tomorrow_of(now).days_from_ce - yesterday_of(now).days_from_ce == 2,
{
    lemma_date_bounds(now);
}

/// Days in one unit of a unit that is a whole number of days.
pub open spec fn unit_days(u: Unit) -> int {
    if u == Unit::Weeks {
        7
    } else {
        1
    }
}

/// `<unit>_ago(n)` and `<unit>_from_now(n)` are inverses around the moment
/// they start from: for a unit of fixed length both directions convert `n`
/// into the same number of seconds, the moment `n` units ago plus `n`
/// units is `now`, and the moment `n` units from now minus `n` units is
/// `now`. For days and weeks the same holds of the local dates, as long as
/// the local offset did not change in between.
pub proof fn lemma_ago_from_now_inverse(
    now: Moment,
    u: Unit,
    n: i64,
    past: Result<Relative, PeriodError>,
    future: Result<Relative, PeriodError>,
)
    requires
        now.wf(),
        !is_calendar(u),
        n >= 0,
        resolves(now, u, Direction::Ago, n, past),
        resolves(now, u, Direction::FromNow, n, future),
    ensures
        past is Ok <==> in_range(now.secs - n * unit_seconds(u)),
        future is Ok <==> in_range(now.secs + n * unit_seconds(u)),
        past matches Ok(p) ==> p@.secs + n * unit_seconds(u) == now.secs,
        future matches Ok(f) ==> f@.secs - n * unit_seconds(u) == now.secs,
        (u == Unit::Days || u == Unit::Weeks) && past is Ok && past->Ok_0@.offset == now.offset
            ==> past->Ok_0@.date_spec().days_from_ce + n * unit_days(u)
            == now.date_spec().days_from_ce,
        (u == Unit::Days || u == Unit::Weeks) && future is Ok && future->Ok_0@.offset == now.offset
            ==> future->Ok_0@.date_spec().days_from_ce - n * unit_days(u)
            == now.date_spec().days_from_ce,
{
    let k = unit_seconds(u);
    let s = n * k;
    if s <= MAX_DELTA_SECS {
        assert(plan_spec(u, Direction::Ago, n) == Ok::<Shift, PeriodError>(Shift::Seconds(s as i64)));
        assert(plan_spec(u, Direction::FromNow, n) == Ok::<Shift, PeriodError>(
            Shift::Seconds(s as i64),
        ));
    }
    if u == Unit::Days || u == Unit::Weeks {
        let w = unit_days(u);
        assert(s == (n * w) * SECS_PER_DAY) by (nonlinear_arith)
            requires
                s == n * k,
                k == w * SECS_PER_DAY,
        ;
        lemma_date_bounds(now);
        lemma_day_number_shift(now.local_secs(), -(n * w));
        lemma_day_number_shift(now.local_secs(), n * w);
        if let Ok(p) = past {
            if p@.offset == now.offset {
                lemma_date_bounds(p@);
            }
        }
        if let Ok(f) = future {
            if f@.offset == now.offset {
                lemma_date_bounds(f@);
            }
        }
    }
}

/// For months and years, `<unit>_ago(n)` and `<unit>_from_now(n)` are
/// inverses around the date of `now`, up to clamping: both directions
/// convert `n` into the same number of calendar months (or both fail), the
/// date reached into the past lies exactly that many months before today's
/// month and the one reached into the future that many after, and its day
/// is today's unless that month is shorter, where it is the month's last
/// day. The local time of day and the sub-second part are kept, and a
/// positive count moves the moment into the past or the future.
pub proof fn lemma_calendar_directions_agree(
    now: Moment,
    u: Unit,
    n: i64,
    past: Result<Relative, PeriodError>,
    future: Result<Relative, PeriodError>,
)
    requires
        now.wf(),
        is_calendar(u),
        n >= 0,
        resolves(now, u, Direction::Ago, n, past),
        resolves(now, u, Direction::FromNow, n, future),
    ensures
        plan_spec(u, Direction::Ago, n) == plan_spec(u, Direction::FromNow, n),
        plan_spec(u, Direction::Ago, n) is Ok <==> month_count(u, n as int) <= u32::MAX,
        past is Ok ==> month_index(past->Ok_0@.date_spec().days_from_ce as int) + month_count(
            u,
            n as int,
        ) == month_index(now.date_spec().days_from_ce as int),
        future is Ok ==> month_index(future->Ok_0@.date_spec().days_from_ce as int) - month_count(
            u,
            n as int,
        ) == month_index(now.date_spec().days_from_ce as int),
        past is Ok ==> civil_day(past->Ok_0@.date_spec().days_from_ce as int) == clamped_day(
            civil_day(now.date_spec().days_from_ce as int),
            past->Ok_0@.date_spec().days_from_ce as int,
        ),
        future is Ok ==> civil_day(future->Ok_0@.date_spec().days_from_ce as int) == clamped_day(
            civil_day(now.date_spec().days_from_ce as int),
            future->Ok_0@.date_spec().days_from_ce as int,
        ),
        past is Ok ==> past->Ok_0@.time_spec() == now.time_spec(),
        future is Ok ==> future->Ok_0@.time_spec() == now.time_spec(),
        n > 0 && past is Ok ==> past->Ok_0@.secs < now.secs,
        n > 0 && future is Ok ==> future->Ok_0@.secs > now.secs,
{
    let k = month_count(u, n as int);
    let from = now.date_spec().days_from_ce as int;
    if k <= u32::MAX {
        assert(n > 0 ==> k > 0);
        if let Ok(p) = past {
            lemma_month_index_of_target(from, p@.date_spec().days_from_ce as int, -k);
        }
        if let Ok(f) = future {
            lemma_month_index_of_target(from, f@.date_spec().days_from_ce as int, k);
        }
    }
}

/// `day`, or the last day of the month of the date with day number `days`
/// when that month is shorter.
pub open spec fn clamped_day(day: int, days: int) -> int {
    let last = month_length(civil_year(days), civil_month(days));
    if day > last {
        last
    } else {
        day
    }
}

/// The date `k` months from `from` lies `k` months after it, counting months,
/// and its day is the clamped day of `from`.
proof fn lemma_month_index_of_target(from: int, to: int, k: int)
    requires
        is_months_later(from, to, k),
    ensures
        month_index(to) == month_index(from) + k,
        civil_day(to) == clamped_day(civil_day(from), to),
{
    let index = month_index(from) + k;
    vstd::arithmetic::div_mod::lemma_fundamental_div_mod(index, 12);
}

/// Twelve months and one year (or `12 * n` months and `n` years), counted
/// from the same moment, convert into the same number of calendar months,
/// and when both succeed they reach the same date at the same local time of
/// day.
pub proof fn lemma_years_as_months(
    now: Moment,
    dir: Direction,
    n: i64,
    by_years: Result<Relative, PeriodError>,
    by_months: Result<Relative, PeriodError>,
)
    requires
        now.wf(),
        n >= 0,
        n * 12 <= i64::MAX,
        resolves(now, Unit::Years, dir, n, by_years),
        resolves(now, Unit::Months, dir, (n * 12) as i64, by_months),
    ensures
        same_shift(
            plan_spec(Unit::Months, dir, (n * 12) as i64),
            plan_spec(Unit::Years, dir, n),
        ),
        by_years is Ok && by_months is Ok ==> by_years->Ok_0@.date_spec()
            == by_months->Ok_0@.date_spec() && by_years->Ok_0@.time_spec()
            == by_months->Ok_0@.time_spec(),
{
    lemma_cross_unit_shift(n, dir);
}

/// Counted from the same moment, a positive offset into the past resolves to
/// an earlier instant than `now`, and the same offset into the future to a
/// later one: `<unit>_ago(n)` orders before `<unit>_from_now(n)`.
pub proof fn lemma_past_precedes_future(
    now: Moment,
    u: Unit,
    n: i64,
    past: Result<Relative, PeriodError>,
    future: Result<Relative, PeriodError>,
)
    requires
        now.wf(),
        n > 0,
        resolves(now, u, Direction::Ago, n, past),
        resolves(now, u, Direction::FromNow, n, future),
    ensures
        past is Ok ==> past->Ok_0@.secs < now.secs,
        future is Ok ==> now.secs < future->Ok_0@.secs,
        past is Ok && future is Ok ==> past->Ok_0@.secs < future->Ok_0@.secs,
{
    if !is_calendar(u) {
        assert(n * unit_seconds(u) > 0) by (nonlinear_arith)
            requires
                n > 0,
                unit_seconds(u) >= 1,
        ;
    } else {
        assert(month_count(u, n as int) > 0);
    }
}

/// Do two plans agree: whenever one of them succeeds, both give the same
/// shift?
pub open spec fn same_shift(a: Result<Shift, PeriodError>, b: Result<Shift, PeriodError>) -> bool {
    (a is Ok || b is Ok) ==> a == b
}

/// The same span counted in two units converts into the same shift:
/// 60 seconds and 1 minute, 60 minutes and 1 hour, 24 hours and 1 day,
/// 7 days and 1 week, 12 months and 1 year (and so for any multiple).
pub proof fn lemma_cross_unit_shift(n: i64, dir: Direction)
    requires
        n >= 0,
    ensures
        n * 60 <= i64::MAX ==> same_shift(
            plan_spec(Unit::Seconds, dir, (n * 60) as i64),
            plan_spec(Unit::Minutes, dir, n),
        ),
        n * 60 <= i64::MAX ==> same_shift(
            plan_spec(Unit::Minutes, dir, (n * 60) as i64),
            plan_spec(Unit::Hours, dir, n),
        ),
        n * 24 <= i64::MAX ==> same_shift(
            plan_spec(Unit::Hours, dir, (n * 24) as i64),
            plan_spec(Unit::Days, dir, n),
        ),
        n * 7 <= i64::MAX ==> same_shift(
            plan_spec(Unit::Days, dir, (n * 7) as i64),
            plan_spec(Unit::Weeks, dir, n),
        ),
        n * 12 <= i64::MAX ==> same_shift(
            plan_spec(Unit::Months, dir, (n * 12) as i64),
            plan_spec(Unit::Years, dir, n),
        ),
{
    assert((n * 60) * 1 == n * 60);
    assert((n * 60) * 60 == n * 3600) by (nonlinear_arith);
    assert((n * 24) * 3600 == n * 86400) by (nonlinear_arith);
    assert((n * 7) * 86400 == n * 604800) by (nonlinear_arith);
}

/// Two offsets from the same moment that convert into the same fixed shift
/// succeed together and land on the same instant.
pub proof fn lemma_same_shift_same_instant(
    now: Moment,
    dir: Direction,
    u1: Unit,
    n1: i64,
    r1: Result<Relative, PeriodError>,
    u2: Unit,
    n2: i64,
    r2: Result<Relative, PeriodError>,
)
    requires
        now.wf(),
        resolves(now, u1, dir, n1, r1),
        resolves(now, u2, dir, n2, r2),
        plan_spec(u1, dir, n1) is Ok,
        plan_spec(u1, dir, n1) == plan_spec(u2, dir, n2),
        !is_calendar(u1),
    ensures
        r1 is Ok <==> r2 is Ok,
        r1 is Ok && r2 is Ok ==> r1->Ok_0@.secs == r2->Ok_0@.secs && r1->Ok_0@.nanos
            == r2->Ok_0@.nanos,
{
}

} // verus!
