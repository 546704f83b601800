//! Relative calendar offsets ("three days ago", "in two weeks"), the
//! moments they resolve to, and a humanizer that turns the distance between
//! a moment and the current one into a short English phrase.

pub mod error;
pub mod text;
pub mod moment;
mod clock;
pub mod offset;
pub mod now;
pub mod humanize;
pub mod date;
pub mod formatting;

pub use date::{day_of_year, days_in_month, is_weekday, is_weekend, week_of_year};
pub use error::{validate_non_negative, PeriodError};
pub use formatting::{to_date_string, to_iso8601, to_long_date, to_rfc2822};
pub use humanize::{humanize, humanize_at, humanize_seconds};
pub use moment::{Date, Moment, Relative, TimeOfDay};
pub use now::{now, today};
pub use offset::{
    days_ago, days_from_now, hours_ago, hours_from_now, minutes_ago, minutes_from_now, months_ago,
    months_from_now, resolve_at, seconds_ago, seconds_from_now, tomorrow, weeks_ago, weeks_from_now,
    years_ago, years_from_now, yesterday, Direction, Shift, Unit,
};
