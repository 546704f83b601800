//! Fixed text formats of dates and moments, written by chrono.
use vstd::prelude::*;
use crate::moment::{Date, Moment};

verus! {

/// The local timestamp of the first second of the year 0.
pub const FIRST_FOUR_DIGIT_SECS: i64 = -62_167_219_200;

/// The local timestamp of the last second of the year 9999.
pub const LAST_FOUR_DIGIT_SECS: i64 = 253_402_300_799;

/// The date with day number `days` as `YYYY-MM-DD`.
pub uninterp spec fn iso_date_text(days: int) -> Seq<char>;

/// The date with day number `days` in long form, `February 22, 2026`.
pub uninterp spec fn long_date_text(days: int) -> Seq<char>;

/// The moment in RFC 3339 form, `2026-02-22T14:30:00+05:30`.
pub uninterp spec fn rfc3339_text(secs: int, nanos: int, offset: int) -> Seq<char>;

/// The moment in RFC 2822 form, `Sun, 22 Feb 2026 14:30:00 -0600`.
pub uninterp spec fn rfc2822_text(secs: int, nanos: int, offset: int) -> Seq<char>;

/// The date as `YYYY-MM-DD`.
///
/// Relies on `chrono::NaiveDate::format` with `%Y-%m-%d`.
#[verifier::external_body]
pub fn to_date_string(date: Date) -> (r: String)
    requires
        date.wf(),
    ensures
        r@ == iso_date_text(date.days_from_ce as int),
{
    match chrono::NaiveDate::from_num_days_from_ce_opt(date.days_from_ce) {
        Some(d) => d.format("%Y-%m-%d").to_string(),
        None => String::new(),
    }
}

/// The date in long form, `February 22, 2026`; single-digit days are
/// padded with a space (`February  5, 2026`). Always in English.
///
/// Relies on `chrono::NaiveDate::format` with `%B %e, %Y`.
#[verifier::external_body]
pub fn to_long_date(date: Date) -> (r: String)
    requires
        date.wf(),
    ensures
        r@ == long_date_text(date.days_from_ce as int),
{
    match chrono::NaiveDate::from_num_days_from_ce_opt(date.days_from_ce) {
        Some(d) => d.format("%B %e, %Y").to_string(),
        None => String::new(),
    }
}

/// The moment in RFC 3339 / ISO 8601 form, with its own offset.
///
/// Relies on `chrono::DateTime::to_rfc3339`.
#[verifier::external_body]
pub fn to_iso8601(datetime: &Moment) -> (r: String)
    requires
        datetime.wf(),
    ensures
        r@ == rfc3339_text(datetime.secs as int, datetime.nanos as int, datetime.offset as int),
{
    let utc = chrono::DateTime::from_timestamp(datetime.secs, datetime.nanos);
    match (utc, chrono::FixedOffset::east_opt(datetime.offset)) {
        (Some(t), Some(o)) => t.with_timezone(&o).to_rfc3339(),
        _ => String::new(),
    }
}

/// The moment in RFC 2822 form, with its own offset. The format only has
/// room for local years 0 to 9999.
///
/// Relies on `chrono::DateTime::to_rfc2822`, which panics outside those
/// years.
#[verifier::external_body]
pub fn to_rfc2822(datetime: &Moment) -> (r: String)
    requires
        datetime.wf(),
        FIRST_FOUR_DIGIT_SECS <= datetime.local_secs() <= LAST_FOUR_DIGIT_SECS,
    ensures
        r@ == rfc2822_text(datetime.secs as int, datetime.nanos as int, datetime.offset as int),
{
    let utc = chrono::DateTime::from_timestamp(datetime.secs, datetime.nanos);
    match (utc, chrono::FixedOffset::east_opt(datetime.offset)) {
        (Some(t), Some(o)) => t.with_timezone(&o).to_rfc2822(),
        _ => String::new(),
    }
}

} // verus!
