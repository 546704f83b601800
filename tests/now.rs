#![allow(unused_imports, dead_code)]

use chrono::{DateTime, Datelike, Duration, FixedOffset, Local, Months, NaiveDate, NaiveTime, Offset, TimeZone};
use period::{Date, Moment, PeriodError, Relative, TimeOfDay};

trait Chrono {
    type Out;
    fn chrono(self) -> Self::Out;
}

impl Chrono for Moment {
    type Out = DateTime<Local>;
    fn chrono(self) -> DateTime<Local> {
        Local.timestamp_opt(self.secs, self.nanos).unwrap()
    }
}

impl Chrono for Date {
    type Out = NaiveDate;
    fn chrono(self) -> NaiveDate {
        NaiveDate::from_num_days_from_ce_opt(self.days_from_ce).unwrap()
    }
}

impl Chrono for TimeOfDay {
    type Out = NaiveTime;
    fn chrono(self) -> NaiveTime {
        NaiveTime::from_num_seconds_from_midnight_opt(self.secs_from_midnight, self.nanos).unwrap()
    }
}

fn moment_of<Tz: TimeZone>(dt: &DateTime<Tz>) -> Moment {
    Moment::new(dt.timestamp(), dt.timestamp_subsec_nanos(), dt.offset().fix().local_minus_utc())
        .unwrap()
}

fn now() -> DateTime<Local> {
    period::now().chrono()
}

fn today() -> NaiveDate {
    period::today().chrono()
}

#[test]
fn now_test_now_returns_current_datetime() {
    let before = Local::now();
    let result = now();
    let after = Local::now();

    assert!(result >= before);
    assert!(result <= after);
}

#[test]
fn now_test_today_returns_current_date() {
    let date = today();
    let expected = Local::now().date_naive();
    assert_eq!(date, expected);
}
