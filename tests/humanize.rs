#![allow(unused_imports, dead_code)]

use chrono::{DateTime, Datelike, Duration, FixedOffset, Local, Months, NaiveDate, NaiveTime, Offset, TimeZone};
use period::{Date, Moment, PeriodError, Relative, TimeOfDay, days_ago, days_from_now, hours_ago, hours_from_now, minutes_ago, minutes_from_now, months_ago, months_from_now, seconds_ago, seconds_from_now, tomorrow, weeks_ago, weeks_from_now, years_ago, years_from_now, yesterday};

trait Chrono {
    type Out;
    fn chrono(self) -> Self::Out;
}

impl Chrono for Moment {
    type Out = DateTime<Local>;
    fn chrono(self) -> DateTime<Local> {
        Local.timestamp_opt(self.secs, self.nanos).unwrap()
    }
}

impl Chrono for Date {
    type Out = NaiveDate;
    fn chrono(self) -> NaiveDate {
        NaiveDate::from_num_days_from_ce_opt(self.days_from_ce).unwrap()
    }
}

impl Chrono for TimeOfDay {
    type Out = NaiveTime;
    fn chrono(self) -> NaiveTime {
        NaiveTime::from_num_seconds_from_midnight_opt(self.secs_from_midnight, self.nanos).unwrap()
    }
}

fn moment_of<Tz: TimeZone>(dt: &DateTime<Tz>) -> Moment {
    Moment::new(dt.timestamp(), dt.timestamp_subsec_nanos(), dt.offset().fix().local_minus_utc())
        .unwrap()
}

fn humanize(datetime: DateTime<Local>) -> String {
    period::humanize(moment_of(&datetime))
}

fn past_dt(secs: i64) -> DateTime<Local> {
    Local::now() - Duration::seconds(secs)
}

fn future_dt(secs: i64) -> DateTime<Local> {
    Local::now() + Duration::seconds(secs)
}

#[test]
fn humanize_test_humanize_just_now_past() {
    assert_eq!(humanize(past_dt(10)), "just now");
}

#[test]
fn humanize_test_humanize_just_now_future() {
    assert_eq!(humanize(future_dt(10)), "just now");
}

#[test]
fn humanize_test_humanize_a_minute_ago() {
    assert_eq!(humanize(past_dt(60)), "a minute ago");
}

#[test]
fn humanize_test_humanize_in_a_minute() {
    assert_eq!(humanize(future_dt(60)), "in a minute");
}

#[test]
fn humanize_test_humanize_minutes_ago() {
    assert_eq!(humanize(past_dt(5 * 60)), "5 minutes ago");
}

#[test]
fn humanize_test_humanize_in_minutes() {
    // +30 s buffer: num_seconds() truncates toward zero, so a tiny
    // sub-second gap between future_dt() and humanize() would otherwise
    // shave off one second and drop the floor from 5 to 4.
    assert_eq!(humanize(future_dt(5 * 60 + 30)), "in 5 minutes");
}

#[test]
fn humanize_test_humanize_1_minute_singular_ago() {
    // 95 s -> n = 1 -> singular
    assert_eq!(humanize(past_dt(95)), "1 minute ago");
}

#[test]
fn humanize_test_humanize_an_hour_ago() {
    assert_eq!(humanize(past_dt(60 * 60)), "an hour ago");
}

#[test]
fn humanize_test_humanize_in_an_hour() {
    assert_eq!(humanize(future_dt(60 * 60)), "in an hour");
}

#[test]
fn humanize_test_humanize_hours_ago() {
    assert_eq!(humanize(past_dt(5 * 3600)), "5 hours ago");
}

#[test]
fn humanize_test_humanize_in_hours() {
    assert_eq!(humanize(future_dt(5 * 3600 + 30)), "in 5 hours");
}

#[test]
fn humanize_test_humanize_yesterday() {
    assert_eq!(humanize(past_dt(24 * 3600)), "yesterday");
}

#[test]
fn humanize_test_humanize_tomorrow() {
    assert_eq!(humanize(future_dt(24 * 3600)), "tomorrow");
}

#[test]
fn humanize_test_humanize_days_ago() {
    assert_eq!(humanize(past_dt(5 * 86_400)), "5 days ago");
}

#[test]
fn humanize_test_humanize_in_days() {
    assert_eq!(humanize(future_dt(5 * 86_400 + 30)), "in 5 days");
}

#[test]
fn humanize_test_humanize_a_month_ago() {
    assert_eq!(humanize(past_dt(30 * 86_400)), "a month ago");
}

#[test]
fn humanize_test_humanize_in_a_month() {
    assert_eq!(humanize(future_dt(30 * 86_400)), "in a month");
}

#[test]
fn humanize_test_humanize_months_ago() {
    assert_eq!(humanize(past_dt(3 * 30 * 86_400)), "3 months ago");
}

#[test]
fn humanize_test_humanize_in_months() {
    assert_eq!(humanize(future_dt(3 * 30 * 86_400 + 30)), "in 3 months");
}

#[test]
fn humanize_test_humanize_a_year_ago() {
    // 13 months past -- inside "< 18 months" bucket
    assert_eq!(humanize(past_dt(13 * 30 * 86_400)), "a year ago");
}

#[test]
fn humanize_test_humanize_in_a_year() {
    assert_eq!(humanize(future_dt(13 * 30 * 86_400)), "in a year");
}

#[test]
fn humanize_test_humanize_years_ago() {
    assert_eq!(humanize(past_dt(3 * 365 * 86_400)), "3 years ago");
}

#[test]
fn humanize_test_humanize_in_years() {
    assert_eq!(humanize(future_dt(3 * 365 * 86_400 + 30)), "in 3 years");
}

#[test]
fn humanize_test_humanize_in_1_minute_singular() {
    // 95 s -> n = 1 -> singular future form
    assert_eq!(humanize(future_dt(95)), "in 1 minute");
}

#[test]
fn humanize_test_humanize_1_hour_singular_ago() {
    // 5401 s (approx 90 min) -> hours bucket, n = 1
    assert_eq!(humanize(past_dt(5401)), "1 hour ago");
}

#[test]
fn humanize_test_humanize_in_1_hour_singular() {
    assert_eq!(humanize(future_dt(5401)), "in 1 hour");
}

#[test]
fn humanize_test_humanize_1_day_singular_ago() {
    // 37 h -> days bucket, n = 1
    assert_eq!(humanize(past_dt(37 * 3_600)), "1 day ago");
}

#[test]
fn humanize_test_humanize_in_1_day_singular() {
    assert_eq!(humanize(future_dt(37 * 3_600 + 30)), "in 1 day");
}

#[test]
fn humanize_test_humanize_1_month_singular_ago() {
    // 46 days -> months bucket, n = 1
    assert_eq!(humanize(past_dt(46 * 86_400)), "1 month ago");
}

#[test]
fn humanize_test_humanize_in_1_month_singular() {
    assert_eq!(humanize(future_dt(46 * 86_400 + 30)), "in 1 month");
}

#[test]
fn humanize_test_humanize_1_year_singular_ago() {
    // 19 x 30 days -> years bucket, n = 1
    assert_eq!(humanize(past_dt(19 * 30 * 86_400)), "1 year ago");
}

#[test]
fn humanize_test_humanize_in_1_year_singular() {
    assert_eq!(humanize(future_dt(19 * 30 * 86_400 + 30)), "in 1 year");
}

#[test]
fn humanize_test_humanize_exactly_30s_past_is_a_minute_ago() {
    assert_eq!(humanize(past_dt(30)), "a minute ago");
}

#[test]
fn humanize_test_humanize_exactly_30s_future_is_in_a_minute() {
    // +1 s buffer: time passes between future_dt() and humanize(), so use
    // 31 s to stay safely in the 30-89 s bucket rather than slipping to "just now".
    assert_eq!(humanize(future_dt(31)), "in a minute");
}

#[test]
fn humanize_test_humanize_89s_past_is_a_minute_ago() {
    assert_eq!(humanize(past_dt(89)), "a minute ago");
}

#[test]
fn humanize_test_humanize_44_minutes_past() {
    assert_eq!(humanize(past_dt(44 * 60)), "44 minutes ago");
}

#[test]
fn humanize_test_humanize_exactly_45_minutes_past_is_an_hour_ago() {
    assert_eq!(humanize(past_dt(45 * 60)), "an hour ago");
}

#[test]
fn humanize_test_humanize_exactly_45_minutes_future_is_in_an_hour() {
    // +30 s buffer: keeps the abs delta above 45 * 60 despite elapsed time.
    assert_eq!(humanize(future_dt(45 * 60 + 30)), "in an hour");
}

#[test]
fn humanize_test_humanize_89_minutes_past_is_an_hour_ago() {
    assert_eq!(humanize(past_dt(89 * 60)), "an hour ago");
}

#[test]
fn humanize_test_humanize_21_hours_past() {
    assert_eq!(humanize(past_dt(21 * 3_600)), "21 hours ago");
}

#[test]
fn humanize_test_humanize_exactly_22_hours_past_is_yesterday() {
    assert_eq!(humanize(past_dt(22 * 3_600)), "yesterday");
}

#[test]
fn humanize_test_humanize_exactly_22_hours_future_is_tomorrow() {
    // +30 s buffer: keeps abs delta above 22 * HOUR despite elapsed time.
    assert_eq!(humanize(future_dt(22 * 3_600 + 30)), "tomorrow");
}

#[test]
fn humanize_test_humanize_35_hours_past_is_yesterday() {
    assert_eq!(humanize(past_dt(35 * 3_600)), "yesterday");
}

#[test]
fn humanize_test_humanize_exactly_36_hours_past_is_1_day_ago() {
    assert_eq!(humanize(past_dt(36 * 3_600)), "1 day ago");
}

#[test]
fn humanize_test_humanize_24_days_past() {
    assert_eq!(humanize(past_dt(24 * 86_400)), "24 days ago");
}

#[test]
fn humanize_test_humanize_exactly_25_days_past_is_a_month_ago() {
    assert_eq!(humanize(past_dt(25 * 86_400)), "a month ago");
}

#[test]
fn humanize_test_humanize_exactly_25_days_future_is_in_a_month() {
    // +30 s buffer to survive elapsed time.
    assert_eq!(humanize(future_dt(25 * 86_400 + 30)), "in a month");
}

#[test]
fn humanize_test_humanize_exactly_45_days_past_is_months_ago() {
    // 45 * 86400 / (30 * 86400) = 1 -> "1 month ago"
    assert_eq!(humanize(past_dt(45 * 86_400)), "1 month ago");
}

#[test]
fn humanize_test_humanize_9_months_past() {
    assert_eq!(humanize(past_dt(9 * 30 * 86_400)), "9 months ago");
}

#[test]
fn humanize_test_humanize_exactly_10_months_past_is_a_year_ago() {
    assert_eq!(humanize(past_dt(10 * 30 * 86_400)), "a year ago");
}

#[test]
fn humanize_test_humanize_exactly_10_months_future_is_in_a_year() {
    // +30 s buffer to survive elapsed time.
    assert_eq!(humanize(future_dt(10 * 30 * 86_400 + 30)), "in a year");
}

#[test]
fn humanize_test_humanize_exactly_18_months_past_is_years_ago() {
    // 18 * 30 * 86400 / (365 * 86400) ≈ 1 -> "1 year ago"
    assert_eq!(humanize(past_dt(18 * 30 * 86_400)), "1 year ago");
}

#[test]
fn humanize_test_humanize_exactly_18_months_future_is_in_years() {
    assert_eq!(humanize(future_dt(18 * 30 * 86_400 + 30)), "in 1 year");
}

#[test]
fn humanize_test_humanize_now_is_just_now() {
    assert_eq!(humanize(Local::now()), "just now");
}

#[test]
fn humanize_test_humanize_with_days_ago_relative() {
    let dt: DateTime<Local> = Moment::from(days_ago(3).unwrap()).chrono();
    assert_eq!(humanize(dt), "3 days ago");
}

#[test]
fn humanize_test_humanize_with_hours_from_now_relative() {
    let r = hours_from_now(5).unwrap();
    let result = humanize(Moment::from(r).chrono());
    assert!(result.starts_with("in "), "expected 'in …', got: {result}");
}
