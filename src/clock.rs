//! The calls into chrono that resolve moments: the wall clock, the
//! conversion of unit counts into durations, and calendar arithmetic.
use vstd::prelude::*;
use chrono::TimeZone;
use crate::date::is_months_later;
use crate::moment::{in_range, Moment, NANOS_PER_SEC};

verus! {

/// The largest number of whole seconds a chrono duration holds
/// (`i64::MAX` milliseconds, rounded down to whole seconds).
pub const MAX_DELTA_SECS: i64 = 9_223_372_036_854_775;

/// The duration of `n * per` seconds, when chrono can hold it.
pub open spec fn delta_of(n: int, per: int) -> Option<i64> {
    if -MAX_DELTA_SECS <= n * per <= MAX_DELTA_SECS {
        Some((n * per) as i64)
    } else {
        None
    }
}

/// The whole seconds from `earlier` to `later`, truncated towards zero
/// (negative when `later` comes first).
pub open spec fn whole_seconds_between(later: Moment, earlier: Moment) -> int {
    let d = later.instant() - earlier.instant();
    if d >= 0 {
        d / (NANOS_PER_SEC as int)
    } else {
        -((-d) / (NANOS_PER_SEC as int))
    }
}

/// Relies on `chrono::Local::now`: the current instant with the local
/// offset in force. chrono reads the system clock after the Unix epoch and
/// within its calendar range (it panics otherwise), with a sub-second part
/// below one second; a `FixedOffset` is always less than a day.
#[verifier::external_body]
pub(crate) fn local_now() -> (r: Moment)
    ensures
        r.wf(),
        r.secs >= 0,
{
    let t = chrono::Local::now();
    Moment {
        secs: t.timestamp(),
        nanos: t.timestamp_subsec_nanos(),
        offset: t.offset().local_minus_utc(),
    }
}

/// Relies on `chrono::TimeDelta::try_seconds`: `Some` exactly when the
/// duration is within chrono's bounds.
#[verifier::external_body]
pub(crate) fn try_seconds(n: i64) -> (r: Option<i64>)
    ensures
        r == delta_of(n as int, 1),
{
    Some(chrono::TimeDelta::try_seconds(n)?.num_seconds())
}

/// Relies on `chrono::TimeDelta::try_minutes`: `n * 60` seconds, `None`
/// when that overflows or leaves chrono's bounds.
#[verifier::external_body]
pub(crate) fn try_minutes(n: i64) -> (r: Option<i64>)
    ensures
        r == delta_of(n as int, 60),
{
    Some(chrono::TimeDelta::try_minutes(n)?.num_seconds())
}

/// Relies on `chrono::TimeDelta::try_hours`: `n * 3600` seconds, `None`
/// when that overflows or leaves chrono's bounds.
#[verifier::external_body]
pub(crate) fn try_hours(n: i64) -> (r: Option<i64>)
    ensures
        r == delta_of(n as int, 3600),
{
    Some(chrono::TimeDelta::try_hours(n)?.num_seconds())
}

/// Relies on `chrono::TimeDelta::try_days`: `n * 86400` seconds, `None`
/// when that overflows or leaves chrono's bounds.
#[verifier::external_body]
pub(crate) fn try_days(n: i64) -> (r: Option<i64>)
    ensures
        r == delta_of(n as int, 86400),
{
    Some(chrono::TimeDelta::try_days(n)?.num_seconds())
}

/// Relies on `chrono::TimeDelta::try_weeks`: `n * 604800` seconds, `None`
/// when that overflows or leaves chrono's bounds.
#[verifier::external_body]
pub(crate) fn try_weeks(n: i64) -> (r: Option<i64>)
    ensures
        r == delta_of(n as int, 604800),
{
    Some(chrono::TimeDelta::try_weeks(n)?.num_seconds())
}

/// Relies on `chrono::DateTime::<Local>::checked_add_signed`: the instant
/// moves forward by exactly `secs` seconds, and the result is `None` only
/// when it leaves the calendar range. The offset is the local one at the
/// new instant.
#[verifier::external_body]
pub(crate) fn checked_add_seconds(at: Moment, secs: i64) -> (r: Option<Moment>)
    requires
        at.wf(),
        0 <= secs <= MAX_DELTA_SECS,
    ensures
        r is Some <==> in_range(at.secs + secs),
        r matches Some(m) ==> m.wf() && m.secs == at.secs + secs && m.nanos == at.nanos,
{
    let t = chrono::Local.timestamp_opt(at.secs, at.nanos).single()?;
    let r = t.checked_add_signed(chrono::TimeDelta::try_seconds(secs)?)?;
    Some(Moment {
        secs: r.timestamp(),
        nanos: r.timestamp_subsec_nanos(),
        offset: r.offset().local_minus_utc(),
    })
}

/// Relies on `chrono::DateTime::<Local>::checked_sub_signed`: the instant
/// moves back by exactly `secs` seconds, and the result is `None` only when
/// it leaves the calendar range. The offset is the local one at the new
/// instant.
#[verifier::external_body]
pub(crate) fn checked_sub_seconds(at: Moment, secs: i64) -> (r: Option<Moment>)
    requires
        at.wf(),
        0 <= secs <= MAX_DELTA_SECS,
    ensures
        r is Some <==> in_range(at.secs - secs),
        r matches Some(m) ==> m.wf() && m.secs == at.secs - secs && m.nanos == at.nanos,
{
    let t = chrono::Local.timestamp_opt(at.secs, at.nanos).single()?;
    let r = t.checked_sub_signed(chrono::TimeDelta::try_seconds(secs)?)?;
    Some(Moment {
        secs: r.timestamp(),
        nanos: r.timestamp_subsec_nanos(),
        offset: r.offset().local_minus_utc(),
    })
}

/// The same steps as `chrono::DateTime::<Local>::checked_add_months`, taken
/// from the moment's own local wall-clock reading: relies on
/// `NaiveDateTime::checked_add_months` (the date moves by `months` calendar
/// months, with the day clamped to the end of a shorter month, through
/// `NaiveDate::from_ymd_opt`; the time of day is kept) and on
/// `NaiveDateTime::and_local_timezone(Local)` with `single` (the local time
/// maps to one instant and the offset in force there). The sub-second part
/// and the local time of day are therefore kept, and for a positive count
/// the instant moves forward (by at least 28 days of local time, while
/// offsets differ by less than a day).
#[verifier::external_body]
pub(crate) fn checked_add_months(at: Moment, months: u32) -> (r: Option<Moment>)
    requires
        at.wf(),
    ensures
        r matches Some(m) ==> {
            &&& m.wf()
            &&& m.nanos == at.nanos
            &&& m.time_spec() == at.time_spec()
            &&& is_months_later(
                at.date_spec().days_from_ce as int,
                m.date_spec().days_from_ce as int,
                months as int,
            )
            &&& months > 0 ==> m.secs > at.secs
        },
{
    let offset = chrono::FixedOffset::east_opt(at.offset)?;
    let utc = chrono::DateTime::from_timestamp(at.secs, at.nanos)?.naive_utc();
    let local = utc.checked_add_offset(offset)?.checked_add_months(chrono::Months::new(months))?;
    let r = local.and_local_timezone(chrono::Local).single()?;
    Some(Moment {
        secs: r.timestamp(),
        nanos: r.timestamp_subsec_nanos(),
        offset: r.offset().local_minus_utc(),
    })
}

/// The same steps as `chrono::DateTime::<Local>::checked_sub_months`, taken
/// from the moment's own local wall-clock reading: relies on
/// `NaiveDateTime::checked_sub_months` (the date moves back by `months`
/// calendar months, with the day clamped to the end of a shorter month,
/// through `NaiveDate::from_ymd_opt`; the time of day is kept) and on
/// `NaiveDateTime::and_local_timezone(Local)` with `single`. The sub-second
/// part and the local time of day are therefore kept, and for a positive
/// count the instant moves back.
#[verifier::external_body]
pub(crate) fn checked_sub_months(at: Moment, months: u32) -> (r: Option<Moment>)
    requires
        at.wf(),
    ensures
        r matches Some(m) ==> {
            &&& m.wf()
            &&& m.nanos == at.nanos
            &&& m.time_spec() == at.time_spec()
            &&& is_months_later(
                at.date_spec().days_from_ce as int,
                m.date_spec().days_from_ce as int,
                -(months as int),
            )
            &&& months > 0 ==> m.secs < at.secs
        },
{
    let offset = chrono::FixedOffset::east_opt(at.offset)?;
    let utc = chrono::DateTime::from_timestamp(at.secs, at.nanos)?.naive_utc();
    let local = utc.checked_add_offset(offset)?.checked_sub_months(chrono::Months::new(months))?;
    let r = local.and_local_timezone(chrono::Local).single()?;
    Some(Moment {
        secs: r.timestamp(),
        nanos: r.timestamp_subsec_nanos(),
        offset: r.offset().local_minus_utc(),
    })
}

/// Relies on `chrono::DateTime::signed_duration_since` and
/// `TimeDelta::num_seconds`: the exact span between two instants within
/// the calendar range, in whole seconds truncated towards zero.
#[verifier::external_body]
pub(crate) fn seconds_since(later: Moment, earlier: Moment) -> (r: Option<i64>)
    requires
        later.wf(),
        earlier.wf(),
    ensures
        r == Some(whole_seconds_between(later, earlier) as i64),
{
    let a = chrono::DateTime::from_timestamp(later.secs, later.nanos)?;
    let b = chrono::DateTime::from_timestamp(earlier.secs, earlier.nanos)?;
    Some(a.signed_duration_since(b).num_seconds())
}

} // verus!
