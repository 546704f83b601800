#![allow(unused_imports, dead_code)]

use chrono::{DateTime, Datelike, Duration, FixedOffset, Local, Months, NaiveDate, NaiveTime, Offset, TimeZone};
use period::{Date, Moment, PeriodError, Relative, TimeOfDay, days_ago, days_from_now, hours_ago, hours_from_now, humanize, minutes_ago, minutes_from_now, months_ago, months_from_now, seconds_ago, seconds_from_now, tomorrow, weeks_ago, weeks_from_now, years_ago, years_from_now, yesterday};

trait Chrono {
    type Out;
    fn chrono(self) -> Self::Out;
}

impl Chrono for Moment {
    type Out = DateTime<Local>;
    fn chrono(self) -> DateTime<Local> {
        Local.timestamp_opt(self.secs, self.nanos).unwrap()
    }
}

impl Chrono for Date {
    type Out = NaiveDate;
    fn chrono(self) -> NaiveDate {
        NaiveDate::from_num_days_from_ce_opt(self.days_from_ce).unwrap()
    }
}

impl Chrono for TimeOfDay {
    type Out = NaiveTime;
    fn chrono(self) -> NaiveTime {
        NaiveTime::from_num_seconds_from_midnight_opt(self.secs_from_midnight, self.nanos).unwrap()
    }
}

fn moment_of<Tz: TimeZone>(dt: &DateTime<Tz>) -> Moment {
    Moment::new(dt.timestamp(), dt.timestamp_subsec_nanos(), dt.offset().fix().local_minus_utc())
        .unwrap()
}

#[test]
fn second_test_seconds_ago_returns_correct_datetime() {
    let lower = Local::now() - Duration::seconds(3);
    let result = seconds_ago(3).unwrap().as_datetime().chrono();
    let upper = Local::now() - Duration::seconds(3);
    assert!(result >= lower);
    assert!(result <= upper);
}

#[test]
fn second_test_seconds_ago_with_zero_returns_now() {
    let before = Local::now();
    let result = seconds_ago(0).unwrap().as_datetime().chrono();
    let after = Local::now();
    assert!(result >= before);
    assert!(result <= after);
}

#[test]
fn second_test_seconds_ago_negative_returns_error() {
    assert_eq!(
        seconds_ago(-3).unwrap_err().message(),
        "seconds must be positive. Did you mean seconds_from_now(3)?"
    );
}

#[test]
fn second_test_seconds_ago_overflow_returns_error() {
    assert!(seconds_ago(i64::MAX).is_err());
}

#[test]
fn second_test_seconds_from_now_returns_correct_datetime() {
    let lower = Local::now() + Duration::seconds(3);
    let result = seconds_from_now(3).unwrap().as_datetime().chrono();
    let upper = Local::now() + Duration::seconds(3);
    assert!(result >= lower);
    assert!(result <= upper);
}

#[test]
fn second_test_seconds_from_now_with_zero_returns_now() {
    let before = Local::now();
    let result = seconds_from_now(0).unwrap().as_datetime().chrono();
    let after = Local::now();
    assert!(result >= before);
    assert!(result <= after);
}

#[test]
fn second_test_seconds_from_now_negative_returns_error() {
    assert_eq!(
        seconds_from_now(-3).unwrap_err().message(),
        "seconds must be positive. Did you mean seconds_ago(3)?"
    );
}

#[test]
fn second_test_seconds_from_now_overflow_returns_error() {
    assert!(seconds_from_now(i64::MAX).is_err());
}

#[test]
fn second_test_seconds_ago_negative_one() {
    let err = seconds_ago(-1).unwrap_err();
    assert!(matches!(err, PeriodError::NegativeValue { value: 1, .. }));
}

#[test]
fn second_test_seconds_ago_is_in_the_past() {
    assert!(seconds_ago(10).unwrap().as_datetime().chrono() < Local::now());
}

#[test]
fn second_test_seconds_from_now_is_in_the_future() {
    assert!(seconds_from_now(10).unwrap().as_datetime().chrono() > Local::now());
}
