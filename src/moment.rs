use vstd::prelude::*;
use vstd::arithmetic::div_mod::lemma_fundamental_div_mod_converse;

verus! {

/// Seconds in a day.
pub const SECS_PER_DAY: i64 = 86_400;

/// Nanoseconds in a second.
pub const NANOS_PER_SEC: u32 = 1_000_000_000;

/// The Unix timestamp of the first second of the earliest representable
/// date (January 1 of the year -262143).
pub const MIN_TIMESTAMP: i64 = -8_334_601_228_800;

/// The Unix timestamp of the last second of the latest representable date
/// (December 31 of the year 262142).
pub const MAX_TIMESTAMP: i64 = 8_210_266_876_799;

/// Day number of 1970-01-01, counting 0001-01-01 as day 1.
pub const UNIX_EPOCH_DAY: i64 = 719_163;

/// A shift that makes every representable local timestamp non-negative
/// while keeping its position within the day: a whole number of days.
pub const DAY_SHIFT: i64 = 100_000_000;

/// One absolute instant, seen from a local time zone: a Unix timestamp in
/// whole seconds, the nanoseconds past that second, and the offset of local
/// time from UTC (in seconds) that was in force at that instant.
#[derive(Clone, Copy, Debug, PartialEq, Eq, PartialOrd, Ord, Hash)]
pub struct Moment {
    pub secs: i64,
    pub nanos: u32,
    pub offset: i32,
}

/// A calendar date, as its day number (0001-01-01 is day 1, 1970-01-01 is
/// day 719163).
#[derive(Clone, Copy, Debug, PartialEq, Eq, PartialOrd, Ord, Hash)]
pub struct Date {
    pub days_from_ce: i32,
}

/// A time of day: whole seconds since midnight and the nanoseconds past
/// that second.
#[derive(Clone, Copy, Debug, PartialEq, Eq, PartialOrd, Ord, Hash)]
pub struct TimeOfDay {
    pub secs_from_midnight: u32,
    pub nanos: u32,
}

/// Is `secs` a timestamp within the representable calendar range?
pub open spec fn in_range(secs: int) -> bool {
    MIN_TIMESTAMP <= secs <= MAX_TIMESTAMP
}

/// The day number of the date on which the local timestamp `local` falls.
pub open spec fn day_number(local: int) -> int {
    local / (SECS_PER_DAY as int) + UNIX_EPOCH_DAY
}

/// The seconds since midnight of the local timestamp `local`.
pub open spec fn second_of_day(local: int) -> int {
    local % (SECS_PER_DAY as int)
}

impl Moment {
    /// A well-formed moment: within the calendar range, with a sub-second
    /// part below one second and an offset of less than a day.
    pub open spec fn wf(self) -> bool {
        &&& in_range(self.secs as int)
        &&& self.nanos < NANOS_PER_SEC
        &&& -SECS_PER_DAY < self.offset < SECS_PER_DAY
    }

    /// The local timestamp: the wall-clock reading expressed in seconds.
    pub open spec fn local_secs(self) -> int {
        self.secs + self.offset
    }

    /// The instant in nanoseconds since the Unix epoch.
    pub open spec fn instant(self) -> int {
        self.secs * (NANOS_PER_SEC as int) + self.nanos
    }

    /// The local calendar date of this moment.
    pub open spec fn date_spec(self) -> Date {
        Date { days_from_ce: day_number(self.local_secs()) as i32 }
    }

    /// The local time of day of this moment.
    pub open spec fn time_spec(self) -> TimeOfDay {
        TimeOfDay {
            secs_from_midnight: second_of_day(self.local_secs()) as u32,
            nanos: self.nanos,
        }
    }

    /// Builds a moment from its parts, when they form a well-formed one.
    pub fn new(secs: i64, nanos: u32, offset: i32) -> (r: Option<Moment>)
        ensures
            r == (if (Moment { secs, nanos, offset }).wf() {
                Some(Moment { secs, nanos, offset })
            } else {
                None::<Moment>
            }),
    {
        let m = Moment { secs, nanos, offset };
        if MIN_TIMESTAMP <= secs && secs <= MAX_TIMESTAMP && nanos < NANOS_PER_SEC && -SECS_PER_DAY
            < offset as i64 && (offset as i64) < SECS_PER_DAY {
            Some(m)
        } else {
            None
        }
    }

    /// The local calendar date of this moment.
    pub fn date(self) -> (r: Date)
        requires
            self.wf(),
        ensures
            r == self.date_spec(),
            r.days_from_ce == day_number(self.local_secs()),
            UNIX_EPOCH_DAY - DAY_SHIFT < r.days_from_ce < UNIX_EPOCH_DAY + DAY_SHIFT,
    {
        let (q, _rem) = self.split_local();
        Date { days_from_ce: (q + UNIX_EPOCH_DAY) as i32 }
    }

    /// The local time of day of this moment.
    pub fn time(self) -> (r: TimeOfDay)
        requires
            self.wf(),
        ensures
            r == self.time_spec(),
            r.secs_from_midnight < SECS_PER_DAY,
    {
        let (_q, rem) = self.split_local();
        TimeOfDay { secs_from_midnight: rem as u32, nanos: self.nanos }
    }

    /// Splits the local timestamp into whole days since the epoch and the
    /// seconds left over, rounding towards negative infinity.
    fn split_local(self) -> (r: (i64, i64))
        requires
            self.wf(),
        ensures
            r.0 == self.local_secs() / (SECS_PER_DAY as int),
            r.1 == second_of_day(self.local_secs()),
            0 <= r.1 < SECS_PER_DAY,
            -DAY_SHIFT < r.0 < DAY_SHIFT,
    {
        let shifted: i64 = self.secs + self.offset as i64 + DAY_SHIFT * SECS_PER_DAY;
        let q: i64 = shifted / SECS_PER_DAY;
        let rem: i64 = shifted % SECS_PER_DAY;
        proof {
            let local = self.local_secs();
            assert(shifted == q * SECS_PER_DAY + rem);
            assert(local == (q - DAY_SHIFT) * SECS_PER_DAY + rem) by (nonlinear_arith)
                requires
                    shifted == q * SECS_PER_DAY + rem,
                    shifted == local + DAY_SHIFT * SECS_PER_DAY,
            ;
            lemma_fundamental_div_mod_converse(
                local,
                SECS_PER_DAY as int,
                q - DAY_SHIFT,
                rem as int,
            );
        }
        (q - DAY_SHIFT, rem)
    }
}

/// Moving a local timestamp by whole days moves its date by as many days.
pub proof fn lemma_day_number_shift(local: int, days: int)
    ensures
        day_number(local + days * SECS_PER_DAY) == day_number(local) + days,
        second_of_day(local + days * SECS_PER_DAY) == second_of_day(local),
{
    let d = SECS_PER_DAY as int;
    let q = local / d;
    let r = local % d;
    vstd::arithmetic::div_mod::lemma_fundamental_div_mod(local, d);
    assert(local + days * d == (q + days) * d + r) by (nonlinear_arith)
        requires
            local == d * q + r,
    ;
    lemma_fundamental_div_mod_converse(local + days * d, d, q + days, r);
}

/// The date of a well-formed moment is a day number well within `i32`.
pub proof fn lemma_date_bounds(m: Moment)
    requires
        m.wf(),
    ensures
        UNIX_EPOCH_DAY - DAY_SHIFT < day_number(m.local_secs()) < UNIX_EPOCH_DAY + DAY_SHIFT,
        m.date_spec().days_from_ce == day_number(m.local_secs()),
{
    let d = SECS_PER_DAY as int;
    let local = m.local_secs();
    vstd::arithmetic::div_mod::lemma_fundamental_div_mod(local, d);
    let q = local / d;
    let r = local % d;
    assert(0 <= r < d);
    assert(-DAY_SHIFT < q < DAY_SHIFT) by (nonlinear_arith)
        requires
            local == d * q + r,
            0 <= r < d,
            d == 86400,
            MIN_TIMESTAMP - d < local < MAX_TIMESTAMP + d,
    ;
}

/// A moment that an offset function resolved: it only ever comes out of a
/// successful call, and it orders by the instant it holds (timestamp, then
/// sub-second part; the offset only breaks ties between equal instants).
#[derive(Clone, Copy, Debug, PartialEq, Eq, PartialOrd, Ord, Hash)]
pub struct Relative(Moment);

impl View for Relative {
    type V = Moment;

    closed spec fn view(&self) -> Moment {
        self.0
    }
}

impl Relative {
    /// Every resolved moment is well formed.
    #[verifier::type_invariant]
    spec fn inv(self) -> bool {
        self.0.wf()
    }

    pub(crate) fn resolved(m: Moment) -> (r: Relative)
        requires
            m.wf(),
        ensures
            r@ == m,
    {
        Relative(m)
    }

    /// The full moment.
    pub fn as_datetime(self) -> (r: Moment)
        ensures
            r == self@,
            r.wf(),
    {
        proof {
            use_type_invariant(&self);
        }
        self.0
    }

    /// The local calendar date, without the time of day.
    pub fn as_date(self) -> (r: Date)
        ensures
            r == self@.date_spec(),
    {
        proof {
            use_type_invariant(&self);
        }
        self.0.date()
    }

    /// The local time of day, without the date.
    pub fn as_time(self) -> (r: TimeOfDay)
        ensures
            r == self@.time_spec(),
    {
        proof {
            use_type_invariant(&self);
        }
        self.0.time()
    }
}

impl From<Relative> for Moment {
    fn from(r: Relative) -> (m: Moment) {
        r.as_datetime()
    }
}

impl vstd::std_specs::convert::FromSpecImpl<Relative> for Moment {
    open spec fn obeys_from_spec() -> bool {
        true
    }

    open spec fn from_spec(r: Relative) -> Moment {
        r@
    }
}

impl From<Relative> for Date {
    fn from(r: Relative) -> (d: Date) {
        r.as_date()
    }
}

impl vstd::std_specs::convert::FromSpecImpl<Relative> for Date {
    open spec fn obeys_from_spec() -> bool {
        true
    }

    open spec fn from_spec(r: Relative) -> Date {
        r@.date_spec()
    }
}

impl From<Relative> for TimeOfDay {
    fn from(r: Relative) -> (t: TimeOfDay) {
        r.as_time()
    }
}

impl vstd::std_specs::convert::FromSpecImpl<Relative> for TimeOfDay {
    open spec fn obeys_from_spec() -> bool {
        true
    }

    open spec fn from_spec(r: Relative) -> TimeOfDay {
        r@.time_spec()
    }
}

} // verus!
