#![allow(unused_imports, dead_code)]

use chrono::{DateTime, Datelike, Duration, FixedOffset, Local, Months, NaiveDate, NaiveTime, Offset, TimeZone};
use period::{Date, Moment, PeriodError, Relative, TimeOfDay, days_ago, days_from_now, hours_ago, hours_from_now, humanize, minutes_ago, minutes_from_now, months_ago, months_from_now, seconds_ago, seconds_from_now, tomorrow, weeks_ago, weeks_from_now, years_ago, years_from_now, yesterday};

trait Chrono {
    type Out;
    fn chrono(self) -> Self::Out;
}

impl Chrono for Moment {
    type Out = DateTime<Local>;
    fn chrono(self) -> DateTime<Local> {
        Local.timestamp_opt(self.secs, self.nanos).unwrap()
    }
}

impl Chrono for Date {
    type Out = NaiveDate;
    fn chrono(self) -> NaiveDate {
        NaiveDate::from_num_days_from_ce_opt(self.days_from_ce).unwrap()
    }
}

impl Chrono for TimeOfDay {
    type Out = NaiveTime;
    fn chrono(self) -> NaiveTime {
        NaiveTime::from_num_seconds_from_midnight_opt(self.secs_from_midnight, self.nanos).unwrap()
    }
}

fn moment_of<Tz: TimeZone>(dt: &DateTime<Tz>) -> Moment {
    Moment::new(dt.timestamp(), dt.timestamp_subsec_nanos(), dt.offset().fix().local_minus_utc())
        .unwrap()
}

#[test]
fn mod_test_60_seconds_ago_same_date_as_1_minute_ago() {
    assert_eq!(
        seconds_ago(60).unwrap().as_date().chrono(),
        minutes_ago(1).unwrap().as_date().chrono()
    );
}

#[test]
fn mod_test_60_minutes_ago_same_date_as_1_hour_ago() {
    assert_eq!(
        minutes_ago(60).unwrap().as_date().chrono(),
        hours_ago(1).unwrap().as_date().chrono()
    );
}

#[test]
fn mod_test_24_hours_ago_same_date_as_1_day_ago() {
    assert_eq!(
        hours_ago(24).unwrap().as_date().chrono(),
        days_ago(1).unwrap().as_date().chrono()
    );
}

#[test]
fn mod_test_7_days_ago_same_date_as_1_week_ago() {
    assert_eq!(
        days_ago(7).unwrap().as_date().chrono(),
        weeks_ago(1).unwrap().as_date().chrono()
    );
}

#[test]
fn mod_test_12_months_ago_same_date_as_1_year_ago() {
    assert_eq!(
        months_ago(12).unwrap().as_date().chrono(),
        years_ago(1).unwrap().as_date().chrono()
    );
}

#[test]
fn mod_test_60_seconds_from_now_same_date_as_1_minute_from_now() {
    assert_eq!(
        seconds_from_now(60).unwrap().as_date().chrono(),
        minutes_from_now(1).unwrap().as_date().chrono()
    );
}

#[test]
fn mod_test_7_days_from_now_same_date_as_1_week_from_now() {
    assert_eq!(
        days_from_now(7).unwrap().as_date().chrono(),
        weeks_from_now(1).unwrap().as_date().chrono()
    );
}

#[test]
fn mod_test_12_months_from_now_same_date_as_1_year_from_now() {
    assert_eq!(
        months_from_now(12).unwrap().as_date().chrono(),
        years_from_now(1).unwrap().as_date().chrono()
    );
}

#[test]
fn mod_test_seconds_ago_large_valid_value() {
    // 86 400 s = 1 day
    assert_eq!(
        seconds_ago(86_400).unwrap().as_date().chrono(),
        days_ago(1).unwrap().as_date().chrono()
    );
}

#[test]
fn mod_test_minutes_ago_large_valid_value() {
    // 1 440 min = 1 day
    assert_eq!(
        minutes_ago(1_440).unwrap().as_date().chrono(),
        days_ago(1).unwrap().as_date().chrono()
    );
}

#[test]
fn mod_test_days_ago_plus_n_equals_today() {
    let n = 5i64;
    let date = days_ago(n).unwrap().as_date().chrono();
    assert_eq!(date + Duration::days(n), Local::now().date_naive());
}

#[test]
fn mod_test_days_from_now_minus_n_equals_today() {
    let n = 5i64;
    let date = days_from_now(n).unwrap().as_date().chrono();
    assert_eq!(date - Duration::days(n), Local::now().date_naive());
}
