//! Points in time, spans of time and local calendar times, as plain integers.
//!
//! The store keeps every time as a whole number of milliseconds, and so do
//! [`SystemTime`] and [`Duration`]. A [`LocalTime`] is a point in time, to
//! the second, together with the offset of the local clock from UTC: that is
//! all the calendar arithmetic of this crate needs in order to tell days and
//! weeks apart.
use vstd::prelude::*;

verus! {

/// The number of seconds in a day.
pub const DAY_SECS: i64 = 86_400;

/// The number of seconds in a week.
pub const WEEK_SECS: i64 = 604_800;

/// The latest second a [`LocalTime`] may hold: the last second of the year 9999.
pub const MAX_SECS: i64 = 253_402_300_799;

/// The earliest second a [`LocalTime`] may hold.
pub const MIN_SECS: i64 = -253_402_300_799;

/// A span of time, in milliseconds.
#[derive(Clone, Copy, Debug, PartialEq, Eq, Structural)]
pub struct Duration {
    pub millis: u64,
}

/// A point in time, in milliseconds since the Unix epoch.
#[derive(Clone, Copy, Debug, PartialEq, Eq, Structural)]
pub struct SystemTime {
    pub millis: u64,
}

/// A day of the week.
#[derive(Clone, Copy, Debug, PartialEq, Eq, Structural)]
pub enum Weekday {
    Mon,
    Tue,
    Wed,
    Thu,
    Fri,
    Sat,
    Sun,
}

/// A point in time as a local clock shows it: `secs` seconds after the Unix
/// epoch, read on a clock that runs `offset` seconds ahead of UTC.
#[derive(Clone, Copy, Debug, PartialEq, Eq, Structural)]
pub struct LocalTime {
    pub secs: i64,
    pub offset: i32,
}

impl Duration {
    /// The span of `secs` seconds.
    pub fn from_secs(secs: u64) -> (d: Duration)
        requires
            secs * 1000 <= u64::MAX,
        ensures
            d.millis == secs * 1000,
    {
        Duration { millis: secs * 1000 }
    }

    /// The span of `millis` milliseconds.
    pub fn from_millis(millis: u64) -> (d: Duration)
        ensures
            d.millis == millis,
    {
        Duration { millis }
    }

    /// The whole seconds in this span.
    pub open spec fn secs(self) -> int {
        self.millis as int / 1000
    }

    /// The whole seconds in this span.
    pub fn as_secs(&self) -> (s: u64)
        ensures
            s == self.secs(),
    {
        self.millis / 1000
    }

    /// The milliseconds in this span.
    pub fn as_millis(&self) -> (m: u64)
        ensures
            m == self.millis,
    {
        self.millis
    }
}

impl SystemTime {
    /// The point in time `d` after the Unix epoch.
    pub fn from_epoch(d: Duration) -> (t: SystemTime)
        ensures
            t.millis == d.millis,
    {
        SystemTime { millis: d.millis }
    }

    /// The span from `earlier` to this point, or `None` where `earlier` is
    /// in fact later.
    pub fn duration_since(&self, earlier: &SystemTime) -> (d: Option<Duration>)
        ensures
            d == if self.millis >= earlier.millis {
                Some(Duration { millis: (self.millis - earlier.millis) as u64 })
            } else {
                None
            },
    {
        if self.millis >= earlier.millis {
            Some(Duration { millis: self.millis - earlier.millis })
        } else {
            None
        }
    }

    /// The span from `earlier` to this point, and no time at all where
    /// `earlier` is in fact later.
    pub open spec fn elapsed_since(self, earlier: SystemTime) -> Duration {
        if self.millis >= earlier.millis {
            Duration { millis: (self.millis - earlier.millis) as u64 }
        } else {
            Duration { millis: 0 }
        }
    }

    /// The span from `earlier` to this point, and no time at all where
    /// `earlier` is in fact later.
    pub fn since_or_zero(&self, earlier: &SystemTime) -> (d: Duration)
        ensures
            d == self.elapsed_since(*earlier),
    {
        match self.duration_since(earlier) {
            Some(d) => d,
            None => Duration { millis: 0 },
        }
    }
}

impl Weekday {
    /// The number of days from Monday to this day: 0 for Monday, 6 for Sunday.
    pub open spec fn index(self) -> int {
        match self {
            Weekday::Mon => 0,
            Weekday::Tue => 1,
            Weekday::Wed => 2,
            Weekday::Thu => 3,
            Weekday::Fri => 4,
            Weekday::Sat => 5,
            Weekday::Sun => 6,
        }
    }

    /// The number of days from Monday to this day.
    pub fn num_days_from_monday(&self) -> (n: u32)
        ensures
            n == self.index(),
    {
        match self {
            Weekday::Mon => 0,
            Weekday::Tue => 1,
            Weekday::Wed => 2,
            Weekday::Thu => 3,
            Weekday::Fri => 4,
            Weekday::Sat => 5,
            Weekday::Sun => 6,
        }
    }
}

impl LocalTime {
    /// The offset is less than a day either way, and the second is one that
    /// calendars can name.
    pub open spec fn wf(self) -> bool {
        &&& -86_400 < self.offset < 86_400
        &&& MIN_SECS <= self.secs <= MAX_SECS
    }

    /// What the local clock shows, in seconds since its own 1 January 1970, 0:00.
    pub open spec fn clock(self) -> int {
        self.secs + self.offset
    }

    /// The local day, counted from 1 January 1970, which is day 0.
    pub open spec fn day(self) -> int {
        self.clock() / 86_400
    }

    /// The local day of the week, from 0 for Monday to 6 for Sunday.
    /// Day 0 was a Thursday.
    pub open spec fn weekday_index(self) -> int {
        (self.day() + 3) % 7
    }

    /// The same clock, `days` days later.
    pub open spec fn plus_days(self, days: int) -> LocalTime {
        LocalTime { secs: (self.secs + days * 86_400) as i64, offset: self.offset }
    }

    /// The point in time at which the local clock shows `second_of_day`
    /// seconds past midnight on this time's day.
    pub open spec fn at_second_of_day(self, second_of_day: int) -> int {
        self.day() * 86_400 + second_of_day - self.offset
    }

    /// The local day, counted from 1 January 1970.
    pub fn day_number(&self) -> (d: i64)
        requires
            self.wf(),
        ensures
            d == self.day(),
    {
        let clock: i64 = self.secs + self.offset as i64;
        if clock >= 0 {
            clock / DAY_SECS
        } else {
            let below: i64 = -clock - 1;
            -(below / DAY_SECS) - 1
        }
    }

    /// The local day of the week.
    pub fn weekday(&self) -> (w: Weekday)
        requires
            self.wf(),
        ensures
            w.index() == self.weekday_index(),
    {
        let day: i64 = self.day_number();
        // no day lies more than 2_932_902 days, a whole number of weeks,
        // before the epoch
        let shifted: i64 = day + 2_932_902 + 3;
        let index: i64 = shifted % 7;
        if index == 0 {
            Weekday::Mon
        } else if index == 1 {
            Weekday::Tue
        } else if index == 2 {
            Weekday::Wed
        } else if index == 3 {
            Weekday::Thu
        } else if index == 4 {
            Weekday::Fri
        } else if index == 5 {
            Weekday::Sat
        } else {
            Weekday::Sun
        }
    }

    /// The same clock, `days` days later.
    pub fn add_days(&self, days: i64) -> (t: LocalTime)
        requires
            0 <= days <= 7,
            self.wf(),
        ensures
            t == self.plus_days(days as int),
            t.secs == self.secs + days * 86_400,
            t.offset == self.offset,
            t.secs <= MAX_SECS ==> t.wf(),
    {
        LocalTime { secs: self.secs + days * DAY_SECS, offset: self.offset }
    }

    /// The same clock, `secs` seconds later; `None` where that is beyond
    /// what calendars can name.
    pub open spec fn plus_secs(self, secs: int) -> Option<LocalTime> {
        if MIN_SECS <= self.secs + secs <= MAX_SECS {
            Some(LocalTime { secs: (self.secs + secs) as i64, offset: self.offset })
        } else {
            None
        }
    }

    /// The same clock, `secs` seconds later, or earlier where `secs` is
    /// negative; `None` where that is beyond what calendars can name.
    pub fn checked_add(&self, secs: i64) -> (t: Option<LocalTime>)
        requires
            self.wf(),
        ensures
            t == self.plus_secs(secs as int),
            t matches Some(lt) ==> lt.wf(),
    {
        if secs >= MIN_SECS - MAX_SECS && secs <= MAX_SECS - MIN_SECS && self.secs + secs
            >= MIN_SECS && self.secs + secs <= MAX_SECS {
            Some(LocalTime { secs: self.secs + secs, offset: self.offset })
        } else {
            None
        }
    }

    /// Whether this point in time comes before `other`.
    pub fn before(&self, other: &LocalTime) -> (b: bool)
        ensures
            b == (self.secs < other.secs),
    {
        self.secs < other.secs
    }
}

/// Moving a local time by whole days moves its day number by as many, and
/// leaves the time of day as it was.
pub proof fn lemma_plus_days(t: LocalTime, days: int)
    requires
        i64::MIN <= t.secs + days * 86_400 <= i64::MAX,
    ensures
        t.plus_days(days).day() == t.day() + days,
        t.plus_days(days).clock() % 86_400 == t.clock() % 86_400,
        t.plus_days(days).weekday_index() == (t.weekday_index() + days) % 7,
{
    let c = t.clock();
    assert((c + days * 86_400) / 86_400 == c / 86_400 + days && (c + days * 86_400) % 86_400 == c
        % 86_400) by (nonlinear_arith);
    let d = t.day() + 3;
    assert((d + days) % 7 == (d % 7 + days) % 7) by (nonlinear_arith);
}

} // verus!
