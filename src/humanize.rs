//! Turns the distance between a moment and the current one into a short
//! English phrase: "just now", "3 minutes ago", "in a month", "yesterday".
use vstd::prelude::*;
use vstd::string::StringExecFns;
use crate::clock::{local_now, seconds_since, whole_seconds_between};
use crate::moment::Moment;
use crate::text::{decimal, push_decimal};

verus! {

/// Seconds in a minute.
pub const MINUTE: i64 = 60;

/// Seconds in an hour.
pub const HOUR: i64 = 3_600;

/// Seconds in a day.
pub const DAY: i64 = 86_400;

/// Seconds in the flat 30-day month that the phrases count in.
pub const MONTH: i64 = 2_592_000;

/// Seconds in the flat 365-day year that the phrases count in.
pub const YEAR: i64 = 31_536_000;

/// The size of a signed span of seconds, saturating at `i64::MAX`.
pub open spec fn span_size(secs: i64) -> int {
    if secs >= 0 {
        secs as int
    } else if secs == i64::MIN {
        i64::MAX as int
    } else {
        -secs
    }
}

/// A phrase with a count: "5 minutes ago" or "in 5 minutes"; the singular
/// noun when the count is one.
pub open spec fn counted(n: int, singular: Seq<char>, plural: Seq<char>, past: bool) -> Seq<char> {
    let noun = if n == 1 {
        singular
    } else {
        plural
    };
    if past {
        decimal(n as nat) + " "@ + noun + " ago"@
    } else {
        "in "@ + decimal(n as nat) + " "@ + noun
    }
}

/// The phrase for a moment `secs` seconds before the current one (after
/// it, when negative). Each bound belongs to the bucket that starts there.
pub open spec fn phrase(secs: i64) -> Seq<char> {
    let past = secs >= 0;
    let a = span_size(secs);
    if a < 30 {
        "just now"@
    } else if a < 90 {
        if past { "a minute ago"@ } else { "in a minute"@ }
    } else if a < 45 * MINUTE {
        counted(a / MINUTE as int, "minute"@, "minutes"@, past)
    } else if a < 90 * MINUTE {
        if past { "an hour ago"@ } else { "in an hour"@ }
    } else if a < 22 * HOUR {
        counted(a / HOUR as int, "hour"@, "hours"@, past)
    } else if a < 36 * HOUR {
        if past { "yesterday"@ } else { "tomorrow"@ }
    } else if a < 25 * DAY {
        counted(a / DAY as int, "day"@, "days"@, past)
    } else if a < 45 * DAY {
        if past { "a month ago"@ } else { "in a month"@ }
    } else if a < 10 * MONTH {
        counted(a / MONTH as int, "month"@, "months"@, past)
    } else if a < 18 * MONTH {
        if past { "a year ago"@ } else { "in a year"@ }
    } else {
        counted(a / YEAR as int, "year"@, "years"@, past)
    }
}

fn counted_phrase(n: u64, singular: &str, plural: &str, past: bool) -> (r: String)
    ensures
        r@ == counted(n as int, singular@, plural@, past),
{
    let noun = if n == 1 {
        singular
    } else {
        plural
    };
    if past {
        let mut s = String::new();
        push_decimal(&mut s, n);
        s.append(" ");
        s.append(noun);
        s.append(" ago");
        assert(s@ =~= counted(n as int, singular@, plural@, past));
        s
    } else {
        let mut s = String::from_str("in ");
        push_decimal(&mut s, n);
        s.append(" ");
        s.append(noun);
        assert(s@ =~= counted(n as int, singular@, plural@, past));
        s
    }
}

fn fixed_phrase(past_form: &str, future_form: &str, past: bool) -> (r: String)
    ensures
        r@ == (if past { past_form@ } else { future_form@ }),
{
    if past {
        String::from_str(past_form)
    } else {
        String::from_str(future_form)
    }
}

/// The phrase for a moment `secs` seconds before the current one (after
/// it, when negative).
pub fn humanize_seconds(secs: i64) -> (r: String)
    ensures
        r@ == phrase(secs),
{
    let past = secs >= 0;
    let a: i64 = if secs >= 0 {
        secs
    } else if secs == i64::MIN {
        i64::MAX
    } else {
        -secs
    };
    if a < 30 {
        String::from_str("just now")
    } else if a < 90 {
        fixed_phrase("a minute ago", "in a minute", past)
    } else if a < 45 * MINUTE {
        counted_phrase((a / MINUTE) as u64, "minute", "minutes", past)
    } else if a < 90 * MINUTE {
        fixed_phrase("an hour ago", "in an hour", past)
    } else if a < 22 * HOUR {
        counted_phrase((a / HOUR) as u64, "hour", "hours", past)
    } else if a < 36 * HOUR {
        fixed_phrase("yesterday", "tomorrow", past)
    } else if a < 25 * DAY {
        counted_phrase((a / DAY) as u64, "day", "days", past)
    } else if a < 45 * DAY {
        fixed_phrase("a month ago", "in a month", past)
    } else if a < 10 * MONTH {
        counted_phrase((a / MONTH) as u64, "month", "months", past)
    } else if a < 18 * MONTH {
        fixed_phrase("a year ago", "in a year", past)
    } else {
        counted_phrase((a / YEAR) as u64, "year", "years", past)
    }
}

/// The phrase for `datetime`, seen from the moment `now`.
pub fn humanize_at(now: Moment, datetime: Moment) -> (r: String)
    requires
        now.wf(),
        datetime.wf(),
    ensures
        r@ == phrase(whole_seconds_between(now, datetime) as i64),
{
    let secs = match seconds_since(now, datetime) {
        Some(s) => s,
        None => 0,
    };
    humanize_seconds(secs)
}

/// The phrase for `datetime`, seen from the current moment.
pub fn humanize(datetime: Moment) -> (r: String)
    requires
        datetime.wf(),
    ensures
        exists|now: Moment|
            now.wf() && now.secs >= 0 && r@ == #[trigger] phrase(whole_seconds_between(now, datetime) as i64),
{
    let now = local_now();
    humanize_at(now, datetime)
}

/// Any moment, seen from itself, is "just now".
pub proof fn lemma_now_is_just_now(m: Moment)
    requires
        m.wf(),
    ensures
        phrase(whole_seconds_between(m, m) as i64) == "just now"@,
{
    assert(whole_seconds_between(m, m) == 0);
}

} // verus!
