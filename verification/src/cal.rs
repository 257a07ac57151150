//! Days, weeks, months and years, and the events that fall into them.
//!
//! Every range starts at a local time. Where the calendar has no name for
//! a day, or a day lies beyond what a local time can hold, there is no
//! range, and what walks through ranges ends.
use crate::time::{LocalTime, Weekday, DAY_SECS, MAX_SECS, MIN_SECS, WEEK_SECS};
use crate::util::{
    day_of, local_day, local_midnight, local_month, local_year, month_of, year_of, ymd,
};
use vstd::prelude::*;

verus! {

/// The number of seconds in an hour.
pub const HOUR_SECS: i64 = 3_600;

/// A day, a week, a month or a year, by the time it starts at.
#[derive(Clone, Copy, Debug, PartialEq, Eq, Structural)]
pub enum CalRange {
    Day(LocalTime),
    Week(LocalTime),
    Month(LocalTime),
    Year(LocalTime),
}

/// The name of the day of the week `w`.
pub open spec fn weekday_name(w: int) -> Seq<char> {
    if w == 0 {
        "Monday"@
    } else if w == 1 {
        "Tuesday"@
    } else if w == 2 {
        "Wednesday"@
    } else if w == 3 {
        "Thursday"@
    } else if w == 4 {
        "Friday"@
    } else if w == 5 {
        "Saturday"@
    } else {
        "Sunday"@
    }
}

/// The name of the day of the week of `lt`.
pub fn day_of_week(lt: &LocalTime) -> (name: &'static str)
    requires
        lt.wf(),
    ensures
        name@ == weekday_name(lt.weekday_index()),
{
    match lt.weekday() {
        Weekday::Mon => "Monday",
        Weekday::Tue => "Tuesday",
        Weekday::Wed => "Wednesday",
        Weekday::Thu => "Thursday",
        Weekday::Fri => "Friday",
        Weekday::Sat => "Saturday",
        Weekday::Sun => "Sunday",
    }
}

/// The name of the month number `m`.
pub open spec fn name_of_month(m: int) -> Seq<char> {
    if m == 1 {
        "January"@
    } else if m == 2 {
        "February"@
    } else if m == 3 {
        "March"@
    } else if m == 4 {
        "April"@
    } else if m == 5 {
        "May"@
    } else if m == 6 {
        "June"@
    } else if m == 7 {
        "July"@
    } else if m == 8 {
        "August"@
    } else if m == 9 {
        "September"@
    } else if m == 10 {
        "October"@
    } else if m == 11 {
        "November"@
    } else if m == 12 {
        "December"@
    } else {
        "Something else..."@
    }
}

/// The name of the month of `lt`.
pub fn month_name(lt: &LocalTime) -> (name: &'static str)
    requires
        lt.wf(),
    ensures
        name@ == name_of_month(local_month(lt.secs, lt.offset) as int),
{
    let m = month_of(lt);
    if m == 1 {
        "January"
    } else if m == 2 {
        "February"
    } else if m == 3 {
        "March"
    } else if m == 4 {
        "April"
    } else if m == 5 {
        "May"
    } else if m == 6 {
        "June"
    } else if m == 7 {
        "July"
    } else if m == 8 {
        "August"
    } else if m == 9 {
        "September"
    } else if m == 10 {
        "October"
    } else if m == 11 {
        "November"
    } else if m == 12 {
        "December"
    } else {
        "Something else..."
    }
}

/// The day `d` of the month `m` of the year `y`, on a clock `offset`
/// seconds ahead of UTC.
pub fn day(y: i32, m: u32, d: u32, offset: i32) -> (range: Option<CalRange>)
    requires
        -86_400 < offset < 86_400,
    ensures
        range == match local_midnight(y, m, d, offset) {
            Some(t) => Some(CalRange::Day(t)),
            None => None,
        },
        range matches Some(r) ==> r.wf(),
{
    match ymd(y, m, d, offset) {
        Some(t) => Some(CalRange::Day(t)),
        None => None,
    }
}

/// The Monday of the week of `given`, at the same time of day.
pub open spec fn monday_of(given: LocalTime) -> Option<LocalTime> {
    given.plus_secs(-given.weekday_index() * 86_400)
}

/// The week of the day `d` of the month `m` of the year `y`: it starts on
/// the Monday of that day's week.
pub fn week(y: i32, m: u32, d: u32, offset: i32) -> (range: Option<CalRange>)
    requires
        -86_400 < offset < 86_400,
    ensures
        range == match local_midnight(y, m, d, offset) {
            Some(given) => match monday_of(given) {
                Some(t) => Some(CalRange::Week(t)),
                None => None,
            },
            None => None,
        },
        range matches Some(r) ==> r.wf(),
{
    match ymd(y, m, d, offset) {
        None => None,
        Some(given) => {
            let back = given.weekday().num_days_from_monday() as i64;
            match given.checked_add(-back * DAY_SECS) {
                Some(t) => Some(CalRange::Week(t)),
                None => None,
            }
        },
    }
}

/// The month `m` of the year `y`.
pub fn month(y: i32, m: u32, offset: i32) -> (range: Option<CalRange>)
    requires
        -86_400 < offset < 86_400,
    ensures
        range == match local_midnight(y, m, 1, offset) {
            Some(t) => Some(CalRange::Month(t)),
            None => None,
        },
        range matches Some(r) ==> r.wf(),
{
    match ymd(y, m, 1, offset) {
        Some(t) => Some(CalRange::Month(t)),
        None => None,
    }
}

/// The year `y`.
pub fn year(y: i32, offset: i32) -> (range: Option<CalRange>)
    requires
        -86_400 < offset < 86_400,
    ensures
        range == match local_midnight(y, 1, 1, offset) {
            Some(t) => Some(CalRange::Year(t)),
            None => None,
        },
        range matches Some(r) ==> r.wf(),
{
    match ymd(y, 1, 1, offset) {
        Some(t) => Some(CalRange::Year(t)),
        None => None,
    }
}

/// A stretch of time: where it starts and where it ends.
pub type Interval = (LocalTime, LocalTime);

/// The first of the days `from`, `from + 1`, up to 32 days after `start`,
/// that is not in the month of `start`, at the time of day of `start`;
/// `start` itself where there is none, or where the days run beyond what a
/// local time can hold.
pub open spec fn end_of_month_from(start: LocalTime, from: int) -> LocalTime
    decreases 33 - from,
{
    if from >= 33 {
        start
    } else {
        match start.plus_secs(from * 86_400) {
            None => start,
            Some(attempt) => if local_month(attempt.secs, attempt.offset) != local_month(
                start.secs,
                start.offset,
            ) {
                attempt
            } else {
                end_of_month_from(start, from + 1)
            },
        }
    }
}

/// Where the month of `start` ends: see [`end_of_month_from`].
pub open spec fn end_of_month(start: LocalTime) -> LocalTime {
    end_of_month_from(start, 0)
}

/// Where the month of `start` ends: the first day after `start` that is in
/// another month, at the same time of day.
pub fn find_end_of_month(start: LocalTime) -> (end: LocalTime)
    requires
        start.wf(),
    ensures
        end == end_of_month(start),
        end.wf(),
{
    let starting_month = month_of(&start);
    let mut i: i64 = 0;
    while i < 33
        invariant
            0 <= i <= 33,
            start.wf(),
            starting_month == local_month(start.secs, start.offset),
            end_of_month(start) == end_of_month_from(start, i as int),
        decreases 33 - i,
    {
        match start.checked_add(i * DAY_SECS) {
            None => {
                return start;
            },
            Some(attempt) => {
                if month_of(&attempt) != starting_month {
                    return attempt;
                }
            },
        }
        i = i + 1;
    }
    start
}

/// Where the year of `start` ends: of the days 365 and 366 days after
/// `start` the first that is in another year; `start` itself where there
/// is none.
pub open spec fn end_of_year(start: LocalTime) -> LocalTime {
    match (start.plus_secs(31_536_000), start.plus_secs(31_622_400)) {
        (Some(first), Some(second)) => if local_year(first.secs, first.offset) != local_year(
            start.secs,
            start.offset,
        ) {
            first
        } else if local_year(second.secs, second.offset) != local_year(
            start.secs,
            start.offset,
        ) {
            second
        } else {
            start
        },
        (Some(first), None) => if local_year(first.secs, first.offset) != local_year(
            start.secs,
            start.offset,
        ) {
            first
        } else {
            start
        },
        _ => start,
    }
}

/// Where the year of `start` ends.
pub fn find_end_of_year(start: LocalTime) -> (end: LocalTime)
    requires
        start.wf(),
    ensures
        end == end_of_year(start),
        end.wf(),
{
    let starting_year = year_of(&start);
    match start.checked_add(365 * DAY_SECS) {
        None => start,
        Some(first) => {
            if year_of(&first) != starting_year {
                return first;
            }
            match start.checked_add(366 * DAY_SECS) {
                None => start,
                Some(second) => {
                    if year_of(&second) != starting_year {
                        second
                    } else {
                        start
                    }
                },
            }
        },
    }
}

/// The earlier of two times; the second where they are the same.
pub fn min(t0: LocalTime, t1: LocalTime) -> (t: LocalTime)
    ensures
        t == if t0.secs < t1.secs {
            t0
        } else {
            t1
        },
{
    if t0.secs < t1.secs {
        return t0;
    }
    t1
}

/// The later of two times; the second where they are the same.
pub fn max(t0: LocalTime, t1: LocalTime) -> (t: LocalTime)
    ensures
        t == if t0.secs > t1.secs {
            t0
        } else {
            t1
        },
{
    if t0.secs > t1.secs {
        return t0;
    }
    t1
}

/// How a range is walked through.
#[derive(Clone, Copy, Debug, PartialEq, Eq, Structural)]
pub enum Stride {
    /// Hour by hour.
    Hours,
    /// Day by day.
    Days,
    /// Week by week, but no further than the end of the month.
    WeeksOfMonth,
    /// Month by month: to the day after the end of each month.
    MonthsOfYear,
}

/// Where the stretch ends that starts at `s`, by the stride `stride`;
/// `None` where that is beyond what a local time can hold.
pub open spec fn stride_end(stride: Stride, s: LocalTime) -> Option<LocalTime> {
    match stride {
        Stride::Hours => s.plus_secs(3_600),
        Stride::Days => s.plus_secs(86_400),
        Stride::WeeksOfMonth => match s.plus_secs(604_800) {
            Some(week_later) => Some(
                if week_later.secs < end_of_month(s).secs {
                    week_later
                } else {
                    end_of_month(s)
                },
            ),
            None => None,
        },
        Stride::MonthsOfYear => end_of_month(s).plus_secs(86_400),
    }
}

/// Walks through a range, stretch by stretch.
#[derive(Clone, Copy, Debug, PartialEq, Eq, Structural)]
pub struct CalRangeIterator {
    pub start: LocalTime,
    pub end: LocalTime,
    pub step: Stride,
}

impl CalRangeIterator {
    /// The times it holds are times that calendars can name.
    pub open spec fn wf(self) -> bool {
        self.start.wf() && self.end.wf()
    }

    /// The next stretch, and where the walk stands behind it. There is none
    /// once the walk has reached the end of the range, or where a stretch
    /// would end beyond what a local time can hold.
    pub open spec fn step_spec(self) -> Option<(Interval, CalRangeIterator)> {
        if self.start.secs >= self.end.secs {
            None
        } else {
            match stride_end(self.step, self.start) {
                None => None,
                Some(end) => Some(((self.start, end), CalRangeIterator { start: end, ..self })),
            }
        }
    }

    /// The next stretch of the walk.
    pub fn next(&mut self) -> (interval: Option<Interval>)
        requires
            old(self).wf(),
        ensures
            final(self).wf(),
            match old(self).step_spec() {
                None => interval is None && *final(self) == *old(self),
                Some(found) => interval == Some(found.0) && *final(self) == found.1,
            },
            interval matches Some(i) ==> i.0.wf() && i.1.wf(),
    {
        if self.start.secs >= self.end.secs {
            return None;
        }
        let end = match self.step {
            Stride::Hours => self.start.checked_add(HOUR_SECS),
            Stride::Days => self.start.checked_add(DAY_SECS),
            Stride::WeeksOfMonth => match self.start.checked_add(WEEK_SECS) {
                Some(week_later) => Some(min(week_later, find_end_of_month(self.start))),
                None => None,
            },
            Stride::MonthsOfYear => find_end_of_month(self.start).checked_add(DAY_SECS),
        };
        match end {
            None => None,
            Some(end) => {
                let interval = (self.start, end);
                self.start = end;
                Some(interval)
            },
        }
    }
}

impl CalRange {
    /// The time at which the range starts.
    pub open spec fn start(self) -> LocalTime {
        match self {
            CalRange::Day(start) => start,
            CalRange::Week(start) => start,
            CalRange::Month(start) => start,
            CalRange::Year(start) => start,
        }
    }

    /// The time at which the range starts is one that calendars can name.
    pub open spec fn wf(self) -> bool {
        self.start().wf()
    }

    /// Where the range ends; `None` where that is beyond what a local time
    /// can hold.
    pub open spec fn end(self) -> Option<LocalTime> {
        match self {
            CalRange::Day(start) => start.plus_secs(86_400),
            CalRange::Week(start) => start.plus_secs(604_800),
            CalRange::Month(start) => Some(end_of_month(start)),
            CalRange::Year(start) => Some(end_of_year(start)),
        }
    }

    /// The time `t` is in the range: not before its start, and before its end.
    pub open spec fn holds(self, t: LocalTime) -> bool {
        match self.end() {
            Some(end) => self.start().secs <= t.secs < end.secs,
            None => false,
        }
    }

    /// Where the range starts and where it ends.
    pub fn interval(&self) -> (interval: Option<Interval>)
        requires
            self.wf(),
        ensures
            interval == match self.end() {
                Some(end) => Some((self.start(), end)),
                None => None,
            },
            interval matches Some(i) ==> i.0.wf() && i.1.wf(),
    {
        match *self {
            CalRange::Day(start) => match start.checked_add(DAY_SECS) {
                Some(end) => Some((start, end)),
                None => None,
            },
            CalRange::Week(start) => match start.checked_add(WEEK_SECS) {
                Some(end) => Some((start, end)),
                None => None,
            },
            CalRange::Month(start) => Some((start, find_end_of_month(start))),
            CalRange::Year(start) => Some((start, find_end_of_year(start))),
        }
    }

    /// Whether the time `t` is in the range.
    pub fn in_range(&self, t: LocalTime) -> (b: bool)
        requires
            self.wf(),
        ensures
            b == self.holds(t),
    {
        match self.interval() {
            Some((start, end)) => start.secs <= t.secs && t.secs < end.secs,
            None => false,
        }
    }

    /// The range before this one: the day or the week before; for a
    /// month, January turns into the December before, and any other month
    /// stays; for a year, the year after.
    pub open spec fn prev_spec(self) -> Option<CalRange> {
        match self {
            CalRange::Day(start) => match start.plus_secs(-86_400) {
                Some(t) => Some(CalRange::Day(t)),
                None => None,
            },
            CalRange::Week(start) => match start.plus_secs(-604_800) {
                Some(t) => Some(CalRange::Week(t)),
                None => None,
            },
            CalRange::Month(start) => {
                let y = local_year(start.secs, start.offset);
                let m = local_month(start.secs, start.offset);
                if m == 1 {
                    if y > i32::MIN {
                        match local_midnight((y - 1) as i32, 12, 1, start.offset) {
                            Some(t) => Some(CalRange::Month(t)),
                            None => None,
                        }
                    } else {
                        None
                    }
                } else {
                    match local_midnight(y, m, 1, start.offset) {
                        Some(t) => Some(CalRange::Month(t)),
                        None => None,
                    }
                }
            },
            CalRange::Year(start) => self.next_spec(),
        }
    }

    /// The range after this one.
    pub open spec fn next_spec(self) -> Option<CalRange> {
        match self {
            CalRange::Day(start) => match start.plus_secs(86_400) {
                Some(t) => Some(CalRange::Day(t)),
                None => None,
            },
            CalRange::Week(start) => match start.plus_secs(604_800) {
                Some(t) => Some(CalRange::Week(t)),
                None => None,
            },
            CalRange::Month(start) => {
                let next = end_of_month(start);
                match local_midnight(
                    local_year(next.secs, next.offset),
                    local_month(next.secs, next.offset),
                    1,
                    next.offset,
                ) {
                    Some(t) => Some(CalRange::Month(t)),
                    None => None,
                }
            },
            CalRange::Year(start) => {
                let y = local_year(start.secs, start.offset);
                if y < i32::MAX {
                    match local_midnight((y + 1) as i32, 1, 1, start.offset) {
                        Some(t) => Some(CalRange::Year(t)),
                        None => None,
                    }
                } else {
                    None
                }
            },
        }
    }

    /// The range before this one.
    pub fn prev(&self) -> (range: Option<CalRange>)
        requires
            self.wf(),
        ensures
            range == self.prev_spec(),
            range matches Some(r) ==> r.wf(),
    {
        match *self {
            CalRange::Day(start) => match start.checked_add(-DAY_SECS) {
                Some(t) => Some(CalRange::Day(t)),
                None => None,
            },
            CalRange::Week(start) => match start.checked_add(-WEEK_SECS) {
                Some(t) => Some(CalRange::Week(t)),
                None => None,
            },
            CalRange::Month(start) => {
                let y = year_of(&start);
                let m = month_of(&start);
                if m == 1 {
                    if y > i32::MIN {
                        month(y - 1, 12, start.offset)
                    } else {
                        None
                    }
                } else {
                    month(y, m, start.offset)
                }
            },
            CalRange::Year(_) => self.next(),
        }
    }

    /// The range after this one.
    pub fn next(&self) -> (range: Option<CalRange>)
        requires
            self.wf(),
        ensures
            range == self.next_spec(),
            range matches Some(r) ==> r.wf(),
    {
        match *self {
            CalRange::Day(start) => match start.checked_add(DAY_SECS) {
                Some(t) => Some(CalRange::Day(t)),
                None => None,
            },
            CalRange::Week(start) => match start.checked_add(WEEK_SECS) {
                Some(t) => Some(CalRange::Week(t)),
                None => None,
            },
            CalRange::Month(start) => {
                let next = find_end_of_month(start);
                month(year_of(&next), month_of(&next), next.offset)
            },
            CalRange::Year(start) => {
                let y = year_of(&start);
                if y < i32::MAX {
                    year(y + 1, start.offset)
                } else {
                    None
                }
            },
        }
    }

    /// The walk through this range: a day by hours, a week by days, a
    /// month by weeks, a year by months.
    pub open spec fn walk(self) -> Option<CalRangeIterator> {
        match self.end() {
            None => None,
            Some(end) => Some(
                CalRangeIterator {
                    start: self.start(),
                    end,
                    step: match self {
                        CalRange::Day(_) => Stride::Hours,
                        CalRange::Week(_) => Stride::Days,
                        CalRange::Month(_) => Stride::WeeksOfMonth,
                        CalRange::Year(_) => Stride::MonthsOfYear,
                    },
                },
            ),
        }
    }

    /// The walk through this range.
    pub fn iter(&self) -> (it: Option<CalRangeIterator>)
        requires
            self.wf(),
        ensures
            it == self.walk(),
            it matches Some(i) ==> i.wf(),
    {
        match self.interval() {
            None => None,
            Some((start, end)) => Some(
                CalRangeIterator {
                    start,
                    end,
                    step: match *self {
                        CalRange::Day(_) => Stride::Hours,
                        CalRange::Week(_) => Stride::Days,
                        CalRange::Month(_) => Stride::WeeksOfMonth,
                        CalRange::Year(_) => Stride::MonthsOfYear,
                    },
                },
            ),
        }
    }
}

// ---------------------------------------------------------------------------
// Events

/// Something that lasts from `start_time` to `end_time`.
#[derive(Debug)]
pub struct CalendarEvent<T> {
    pub start_time: LocalTime,
    pub end_time: LocalTime,
    pub data: T,
}

/// Events, read on a clock that is `offset` seconds ahead of UTC.
#[derive(Debug)]
pub struct Calendar<T> {
    events: Vec<CalendarEvent<T>>,
    offset: i32,
}

/// Midnight of 1 January 3000, UTC, in seconds since the epoch.
pub const FAR_AHEAD: i64 = 32_503_680_000;

/// Midnight of 1 January of the year 1, UTC, in seconds since the epoch.
pub const FAR_BACK: i64 = -62_135_596_800;

/// The event `e` falls into the stretch from `start` to `end`: it starts or
/// ends strictly within it.
pub open spec fn falls_into<T>(e: CalendarEvent<T>, start: LocalTime, end: LocalTime) -> bool {
    ||| (start.secs < e.start_time.secs && e.start_time.secs < end.secs)
    ||| (start.secs < e.end_time.secs && e.end_time.secs < end.secs)
    ||| (start.secs < e.start_time.secs && e.end_time.secs < end.secs)
}

/// The test [`falls_into`] for the stretch from `start` to `end`.
pub open spec fn falling_into<T>(start: LocalTime, end: LocalTime) -> spec_fn(
    CalendarEvent<T>,
) -> bool {
    |e: CalendarEvent<T>| falls_into(e, start, end)
}

/// The events that `found` points at.
pub open spec fn pointed_events<T>(found: Seq<&CalendarEvent<T>>) -> Seq<CalendarEvent<T>> {
    found.map_values(|e: &CalendarEvent<T>| *e)
}

/// The earliest start among `events`, and `initial` where none starts
/// before it.
pub open spec fn earliest<T>(events: Seq<CalendarEvent<T>>, initial: LocalTime) -> LocalTime
    decreases events.len(),
{
    if events.len() == 0 {
        initial
    } else {
        let acc = earliest(events.drop_last(), initial);
        if acc.secs < events.last().start_time.secs {
            acc
        } else {
            events.last().start_time
        }
    }
}

/// The latest end among `events`, and `initial` where none ends after it.
pub open spec fn latest<T>(events: Seq<CalendarEvent<T>>, initial: LocalTime) -> LocalTime
    decreases events.len(),
{
    if events.len() == 0 {
        initial
    } else {
        let acc = latest(events.drop_last(), initial);
        if acc.secs > events.last().end_time.secs {
            acc
        } else {
            events.last().end_time
        }
    }
}

/// The times of every event of `events` are times that calendars can name.
pub open spec fn all_wf<T>(events: Seq<CalendarEvent<T>>) -> bool {
    forall|i: int|
        0 <= i < events.len() ==> (#[trigger] events[i]).start_time.wf() && events[i].end_time.wf()
}

impl<T> Calendar<T> {
    /// The events, in the order in which they were pushed.
    pub closed spec fn events(self) -> Seq<CalendarEvent<T>> {
        self.events@
    }

    /// The offset of the clock of the calendar.
    pub closed spec fn offset(self) -> i32 {
        self.offset
    }

    /// The clock is less than a day off UTC, and the times of the events are
    /// times that calendars can name.
    pub open spec fn wf(self) -> bool {
        -86_400 < self.offset() < 86_400 && all_wf(self.events())
    }

    /// The time before which the calendar looks for no start: midnight of 1
    /// January 3000 on its clock.
    pub open spec fn far_ahead(self) -> LocalTime {
        LocalTime { secs: (FAR_AHEAD - self.offset()) as i64, offset: self.offset() }
    }

    /// The time after which the calendar looks for no end: midnight of 1
    /// January of the year 1 on its clock.
    pub open spec fn far_back(self) -> LocalTime {
        LocalTime { secs: (FAR_BACK - self.offset()) as i64, offset: self.offset() }
    }

    /// The time at which the calendar starts.
    pub open spec fn starts(self) -> LocalTime {
        earliest(self.events(), self.far_ahead())
    }

    /// The time at which the calendar ends.
    pub open spec fn ends(self) -> LocalTime {
        latest(self.events(), self.far_back())
    }

    /// A calendar without events, on a clock `offset` seconds ahead of UTC.
    pub fn new(offset: i32) -> (c: Calendar<T>)
        requires
            -86_400 < offset < 86_400,
        ensures
            c.events() == Seq::<CalendarEvent<T>>::empty(),
            c.offset() == offset,
            c.wf(),
    {
        Calendar { events: Vec::new(), offset }
    }

    /// Adds the event `data` from `start_time` to `end_time`.
    pub fn push(&mut self, start_time: LocalTime, end_time: LocalTime, data: T)
        requires
            old(self).wf(),
            start_time.wf(),
            end_time.wf(),
        ensures
            final(self).events() == old(self).events().push(
                CalendarEvent { start_time, end_time, data },
            ),
            final(self).offset() == old(self).offset(),
            final(self).wf(),
    {
        self.events.push(CalendarEvent { start_time, end_time, data });
    }

    /// The events that fall into the stretch from `start` to `end`, in
    /// the order in which they were pushed.
    pub fn find(&self, start: LocalTime, end: LocalTime) -> (found: Vec<&CalendarEvent<T>>)
        ensures
            pointed_events(found@) == self.events().filter(falling_into(start, end)),
    {
        let mut found: Vec<&CalendarEvent<T>> = Vec::new();
        let mut i: usize = 0;
        proof {
            reveal(Seq::filter);
            assert(pointed_events(found@) =~= self.events@.take(0).filter(
                falling_into(start, end),
            ));
        }
        while i < self.events.len()
            invariant
                i <= self.events.len(),
                pointed_events(found@) == self.events@.take(i as int).filter(
                    falling_into(start, end),
                ),
            decreases self.events.len() - i,
        {
            proof {
                reveal(Seq::filter);
                assert(self.events@.take(i + 1).drop_last() =~= self.events@.take(i as int));
                assert(self.events@.take(i + 1).last() == self.events@[i as int]);
            }
            let e = &self.events[i];
            if (start.secs < e.start_time.secs && e.start_time.secs < end.secs) || (start.secs
                < e.end_time.secs && e.end_time.secs < end.secs) || (start.secs
                < e.start_time.secs && e.end_time.secs < end.secs) {
                let ghost before = pointed_events(found@);
                found.push(e);
                assert(pointed_events(found@) =~= before.push(self.events@[i as int]));
            }
            i = i + 1;
        }
        proof {
            assert(self.events@.take(i as int) =~= self.events@);
        }
        found
    }

    /// The time at which the calendar starts: the earliest start of an
    /// event, but not after 1 January 3000.
    pub fn start_time(&self) -> (t: LocalTime)
        requires
            self.wf(),
        ensures
            t == self.starts(),
            t.wf(),
    {
        let mut acc = LocalTime { secs: FAR_AHEAD - self.offset as i64, offset: self.offset };
        let mut i: usize = 0;
        while i < self.events.len()
            invariant
                i <= self.events.len(),
                self.wf(),
                acc.wf(),
                acc == earliest(self.events@.take(i as int), self.far_ahead()),
            decreases self.events.len() - i,
        {
            proof {
                assert(self.events@.take(i + 1).drop_last() =~= self.events@.take(i as int));
                assert(self.events@.take(i + 1).last() == self.events@[i as int]);
                assert(self.events()[i as int].start_time.wf());
            }
            acc = min(acc, self.events[i].start_time);
            i = i + 1;
        }
        proof {
            assert(self.events@.take(i as int) =~= self.events@);
        }
        acc
    }

    /// The time at which the calendar ends: the latest end of an event, but
    /// not before 1 January of the year 1.
    pub fn end_time(&self) -> (t: LocalTime)
        requires
            self.wf(),
        ensures
            t == self.ends(),
            t.wf(),
    {
        let mut acc = LocalTime { secs: FAR_BACK - self.offset as i64, offset: self.offset };
        let mut i: usize = 0;
        while i < self.events.len()
            invariant
                i <= self.events.len(),
                self.wf(),
                acc.wf(),
                acc == latest(self.events@.take(i as int), self.far_back()),
            decreases self.events.len() - i,
        {
            proof {
                assert(self.events@.take(i + 1).drop_last() =~= self.events@.take(i as int));
                assert(self.events@.take(i + 1).last() == self.events@[i as int]);
                assert(self.events()[i as int].end_time.wf());
            }
            acc = max(acc, self.events[i].end_time);
            i = i + 1;
        }
        proof {
            assert(self.events@.take(i as int) =~= self.events@);
        }
        acc
    }

    /// The walk through the calendar, from the year in which it starts.
    pub fn iter(&self) -> (it: Option<CalendarIterator<'_, T>>)
        requires
            self.wf(),
        ensures
            match it {
                Some(i) => Walk::from(self.starts()) == Some(i.walk) && i.calendar == self
                    && i.wf(),
                None => Walk::from(self.starts()) is None,
            },
    {
        let s = self.start_time();
        let y = year_of(&s);
        let m = month_of(&s);
        match (year(y, s.offset), month(y, m, s.offset), week(y, m, 1, s.offset)) {
            (Some(cur_year), Some(cur_month), Some(cur_week)) => match cur_week.iter() {
                Some(iter_week) => Some(
                    CalendarIterator {
                        walk: Walk {
                            step: CalendarIteratorStep::Year,
                            cur_year,
                            cur_month,
                            cur_week,
                            iter_week,
                        },
                        calendar: self,
                    },
                ),
                None => None,
            },
            _ => None,
        }
    }
}

/// What the walk through a calendar hands out next.
#[derive(Clone, Copy, Debug, PartialEq, Eq, Structural)]
pub enum CalendarIteratorStep {
    Year,
    Month,
    Week,
    Day,
}

/// Where the walk through a calendar stands: what it hands out next, the
/// year, the month and the week it is in, and the walk through that week.
#[derive(Clone, Copy, Debug, PartialEq, Eq, Structural)]
pub struct Walk {
    pub step: CalendarIteratorStep,
    pub cur_year: CalRange,
    pub cur_month: CalRange,
    pub cur_week: CalRange,
    pub iter_week: CalRangeIterator,
}

/// What the walk through a calendar hands out, apart from the events of a day.
#[derive(Clone, Copy, Debug, PartialEq, Eq, Structural)]
pub enum Stop {
    /// A year starts here.
    Year(LocalTime),
    /// A month starts here.
    Month(LocalTime),
    /// A week starts here.
    Week(LocalTime),
    /// The day from the first time to the second, which is in the month
    /// that the walk is in.
    Day(LocalTime, LocalTime),
    /// The day from the first time to the second, which is in another
    /// month than the one that the walk is in.
    EmptyDay(LocalTime, LocalTime),
}

impl Stop {
    /// The times of the stop are times that calendars can name.
    pub open spec fn wf(self) -> bool {
        match self {
            Stop::Year(d) => d.wf(),
            Stop::Month(d) => d.wf(),
            Stop::Week(d) => d.wf(),
            Stop::Day(d, end) => d.wf() && end.wf(),
            Stop::EmptyDay(d, end) => d.wf() && end.wf(),
        }
    }
}

impl Walk {
    /// The ranges it holds start at times that calendars can name.
    pub open spec fn wf(self) -> bool {
        self.cur_year.wf() && self.cur_month.wf() && self.cur_week.wf() && self.iter_week.wf()
    }

    /// The walk through a calendar that starts at `s`: it is about to hand
    /// out the year of `s`, and stands in the month of `s` and in the week
    /// of the first day of that month.
    pub open spec fn from(s: LocalTime) -> Option<Walk> {
        let y = local_year(s.secs, s.offset);
        let m = local_month(s.secs, s.offset);
        match (
            local_midnight(y, 1, 1, s.offset),
            local_midnight(y, m, 1, s.offset),
            local_midnight(y, m, 1, s.offset),
        ) {
            (Some(first_of_year), Some(first_of_month), Some(given)) => match monday_of(given) {
                Some(monday) => match CalRange::Week(monday).walk() {
                    Some(iter_week) => Some(
                        Walk {
                            step: CalendarIteratorStep::Year,
                            cur_year: CalRange::Year(first_of_year),
                            cur_month: CalRange::Month(first_of_month),
                            cur_week: CalRange::Week(monday),
                            iter_week,
                        },
                    ),
                    None => None,
                },
                None => None,
            },
            _ => None,
        }
    }

    /// How many steps the walk can still take without handing anything out.
    pub open spec fn rank(self) -> nat {
        match self.step {
            CalendarIteratorStep::Year => 0,
            CalendarIteratorStep::Month => 1,
            CalendarIteratorStep::Week => 2,
            CalendarIteratorStep::Day => 3,
        }
    }

    /// What the walk hands out next in a calendar that ends at `end`, and
    /// where it stands then. The walk is over, and stays where it is, once
    /// a year or a month starts after `end`, and where the calendar has no
    /// name for what comes next.
    pub open spec fn advance(self, end: LocalTime) -> (Option<Stop>, Walk)
        decreases self.rank(),
    {
        match self.step {
            CalendarIteratorStep::Year => if self.cur_year.end() is None
                || self.cur_year.start().secs > end.secs {
                (None, self)
            } else {
                (
                    Some(Stop::Year(self.cur_year.start())),
                    Walk { step: CalendarIteratorStep::Month, ..self },
                )
            },
            CalendarIteratorStep::Month => match self.cur_month.end() {
                None => (None, self),
                Some(month_end) => {
                    let start = self.cur_month.start();
                    if start.secs > end.secs {
                        (None, self)
                    } else if self.cur_year.holds(start) || self.cur_year.holds(month_end) {
                        (Some(Stop::Month(start)), Walk { step: CalendarIteratorStep::Week, ..self })
                    } else {
                        match self.cur_year.next_spec() {
                            None => (None, self),
                            Some(next_year) => {
                                let moved = (Walk {
                                    step: CalendarIteratorStep::Year,
                                    cur_year: next_year,
                                    ..self
                                }).advance(end);
                                if moved.0 is None {
                                    (None, self)
                                } else {
                                    moved
                                }
                            },
                        }
                    }
                },
            },
            CalendarIteratorStep::Week => match self.cur_week.end() {
                None => (None, self),
                Some(week_end) => {
                    let start = self.cur_week.start();
                    if self.cur_month.holds(start) || self.cur_month.holds(week_end) {
                        (Some(Stop::Week(start)), Walk { step: CalendarIteratorStep::Day, ..self })
                    } else {
                        match self.cur_month.next_spec() {
                            None => (None, self),
                            Some(next_month) => {
                                let stepped = Walk {
                                    step: CalendarIteratorStep::Month,
                                    cur_month: next_month,
                                    ..self
                                };
                                let back = if start.secs > next_month.start().secs {
                                    match self.cur_week.prev_spec() {
                                        None => None,
                                        Some(week_before) => match week_before.walk() {
                                            None => None,
                                            Some(iter_week) => Some(
                                                Walk {
                                                    cur_week: week_before,
                                                    iter_week,
                                                    ..stepped
                                                },
                                            ),
                                        },
                                    }
                                } else {
                                    Some(stepped)
                                };
                                match back {
                                    None => (None, self),
                                    Some(w) => {
                                        let moved = w.advance(end);
                                        if moved.0 is None {
                                            (None, self)
                                        } else {
                                            moved
                                        }
                                    },
                                }
                            },
                        }
                    }
                },
            },
            CalendarIteratorStep::Day => match self.iter_week.step_spec() {
                Some(found) => {
                    let day = found.0;
                    let w = Walk { iter_week: found.1, ..self };
                    if self.cur_month.holds(day.0) {
                        (Some(Stop::Day(day.0, day.1)), w)
                    } else {
                        (Some(Stop::EmptyDay(day.0, day.1)), w)
                    }
                },
                None => match self.cur_week.next_spec() {
                    None => (None, self),
                    Some(next_week) => match next_week.walk() {
                        None => (None, self),
                        Some(iter_week) => {
                            let moved = (Walk {
                                step: CalendarIteratorStep::Week,
                                cur_week: next_week,
                                iter_week,
                                ..self
                            }).advance(end);
                            if moved.0 is None {
                                (None, self)
                            } else {
                                moved
                            }
                        },
                    },
                },
            },
        }
    }

    /// What the walk hands out next in a calendar that ends at `end`.
    pub fn step(&mut self, end: LocalTime) -> (stop: Option<Stop>)
        requires
            old(self).wf(),
        ensures
            final(self).wf(),
            stop == old(self).advance(end).0,
            *final(self) == old(self).advance(end).1,
            stop matches Some(s) ==> s.wf(),
        decreases old(self).rank(),
    {
        match self.step {
            CalendarIteratorStep::Year => {
                match self.cur_year.interval() {
                    None => None,
                    Some((start, _)) => {
                        if start.secs > end.secs {
                            None
                        } else {
                            self.step = CalendarIteratorStep::Month;
                            Some(Stop::Year(start))
                        }
                    },
                }
            },
            CalendarIteratorStep::Month => {
                match self.cur_month.interval() {
                    None => None,
                    Some((start, month_end)) => {
                        if start.secs > end.secs {
                            None
                        } else if self.cur_year.in_range(start) || self.cur_year.in_range(
                            month_end,
                        ) {
                            self.step = CalendarIteratorStep::Week;
                            Some(Stop::Month(start))
                        } else {
                            match self.cur_year.next() {
                                None => None,
                                Some(next_year) => {
                                    let mut moved = Walk {
                                        step: CalendarIteratorStep::Year,
                                        cur_year: next_year,
                                        cur_month: self.cur_month,
                                        cur_week: self.cur_week,
                                        iter_week: self.iter_week,
                                    };
                                    let stop = moved.step(end);
                                    if stop.is_some() {
                                        *self = moved;
                                    }
                                    stop
                                },
                            }
                        }
                    },
                }
            },
            CalendarIteratorStep::Week => {
                match self.cur_week.interval() {
                    None => None,
                    Some((start, week_end)) => {
                        if self.cur_month.in_range(start) || self.cur_month.in_range(week_end) {
                            self.step = CalendarIteratorStep::Day;
                            Some(Stop::Week(start))
                        } else {
                            match self.cur_month.next() {
                                None => None,
                                Some(next_month) => {
                                    let mut moved = Walk {
                                        step: CalendarIteratorStep::Month,
                                        cur_year: self.cur_year,
                                        cur_month: next_month,
                                        cur_week: self.cur_week,
                                        iter_week: self.iter_week,
                                    };
                                    let next_start = match next_month {
                                        CalRange::Day(s) => s,
                                        CalRange::Week(s) => s,
                                        CalRange::Month(s) => s,
                                        CalRange::Year(s) => s,
                                    };
                                    if start.secs > next_start.secs {
                                        match self.cur_week.prev() {
                                            None => {
                                                return None;
                                            },
                                            Some(week_before) => match week_before.iter() {
                                                None => {
                                                    return None;
                                                },
                                                Some(iter_week) => {
                                                    moved.cur_week = week_before;
                                                    moved.iter_week = iter_week;
                                                },
                                            },
                                        }
                                    }
                                    let stop = moved.step(end);
                                    if stop.is_some() {
                                        *self = moved;
                                    }
                                    stop
                                },
                            }
                        }
                    },
                }
            },
            CalendarIteratorStep::Day => {
                let mut iter_week = self.iter_week;
                match iter_week.next() {
                    Some((day_start, day_end)) => {
                        self.iter_week = iter_week;
                        if self.cur_month.in_range(day_start) {
                            Some(Stop::Day(day_start, day_end))
                        } else {
                            Some(Stop::EmptyDay(day_start, day_end))
                        }
                    },
                    None => match self.cur_week.next() {
                        None => None,
                        Some(next_week) => match next_week.iter() {
                            None => None,
                            Some(next_iter) => {
                                let mut moved = Walk {
                                    step: CalendarIteratorStep::Week,
                                    cur_year: self.cur_year,
                                    cur_month: self.cur_month,
                                    cur_week: next_week,
                                    iter_week: next_iter,
                                };
                                let stop = moved.step(end);
                                if stop.is_some() {
                                    *self = moved;
                                }
                                stop
                            },
                        },
                    },
                }
            },
        }
    }
}

/// The walk through a calendar: its years, and in each its months, weeks
/// and days, with the events of each day.
pub struct CalendarIterator<'c, T> {
    pub walk: Walk,
    pub calendar: &'c Calendar<T>,
}

/// What the walk through a calendar hands out.
pub enum CalendarItem<'c, T> {
    Year(LocalTime),
    Month(LocalTime),
    Week(LocalTime),
    Day(LocalTime, Vec<&'c CalendarEvent<T>>),
    EmptyDay(LocalTime, Vec<&'c CalendarEvent<T>>),
}

/// What a [`CalendarItem`] says.
pub enum CalendarItemView<T> {
    Year(LocalTime),
    Month(LocalTime),
    Week(LocalTime),
    Day(LocalTime, Seq<CalendarEvent<T>>),
    EmptyDay(LocalTime, Seq<CalendarEvent<T>>),
}

impl<'c, T> View for CalendarItem<'c, T> {
    type V = CalendarItemView<T>;

    open spec fn view(&self) -> CalendarItemView<T> {
        match *self {
            CalendarItem::Year(d) => CalendarItemView::Year(d),
            CalendarItem::Month(d) => CalendarItemView::Month(d),
            CalendarItem::Week(d) => CalendarItemView::Week(d),
            CalendarItem::Day(d, es) => CalendarItemView::Day(d, pointed_events(es@)),
            CalendarItem::EmptyDay(d, es) => CalendarItemView::EmptyDay(d, pointed_events(es@)),
        }
    }
}

/// The time at which what `item` says starts.
pub open spec fn item_time<T>(item: CalendarItemView<T>) -> LocalTime {
    match item {
        CalendarItemView::Year(d) => d,
        CalendarItemView::Month(d) => d,
        CalendarItemView::Week(d) => d,
        CalendarItemView::Day(d, _) => d,
        CalendarItemView::EmptyDay(d, _) => d,
    }
}

/// What is handed out at the stop `stop` in a calendar with the events
/// `events`: for a day, the events that fall into it.
pub open spec fn item_at<T>(stop: Stop, events: Seq<CalendarEvent<T>>) -> CalendarItemView<T> {
    match stop {
        Stop::Year(d) => CalendarItemView::Year(d),
        Stop::Month(d) => CalendarItemView::Month(d),
        Stop::Week(d) => CalendarItemView::Week(d),
        Stop::Day(d, end) => CalendarItemView::Day(d, events.filter(falling_into(d, end))),
        Stop::EmptyDay(d, end) => CalendarItemView::EmptyDay(
            d,
            events.filter(falling_into(d, end)),
        ),
    }
}

impl<'c, T> CalendarIterator<'c, T> {
    /// The walk and the calendar hold times that calendars can name.
    pub open spec fn wf(self) -> bool {
        self.walk.wf() && self.calendar.wf()
    }

    /// The time at which the calendar starts.
    pub fn start(&self) -> (t: LocalTime)
        requires
            self.wf(),
        ensures
            t == self.calendar.starts(),
    {
        self.calendar.start_time()
    }

    /// The time at which the calendar ends.
    pub fn end(&self) -> (t: LocalTime)
        requires
            self.wf(),
        ensures
            t == self.calendar.ends(),
    {
        self.calendar.end_time()
    }

    /// What the walk hands out next: a year, a month, a week, or a day
    /// with the events that fall into it.
    pub fn next(&mut self) -> (item: Option<CalendarItem<'c, T>>)
        requires
            old(self).wf(),
        ensures
            final(self).wf(),
            final(self).calendar == old(self).calendar,
            final(self).walk == old(self).walk.advance(old(self).calendar.ends()).1,
            match old(self).walk.advance(old(self).calendar.ends()).0 {
                None => item is None,
                Some(stop) => item matches Some(i) && i@ == item_at(
                    stop,
                    old(self).calendar.events(),
                ),
            },
            item matches Some(i) ==> item_time(i@).wf(),
    {
        let end = self.calendar.end_time();
        match self.walk.step(end) {
            None => None,
            Some(Stop::Year(d)) => Some(CalendarItem::Year(d)),
            Some(Stop::Month(d)) => Some(CalendarItem::Month(d)),
            Some(Stop::Week(d)) => Some(CalendarItem::Week(d)),
            Some(Stop::Day(d, day_end)) => Some(
                CalendarItem::Day(d, self.calendar.find(d, day_end)),
            ),
            Some(Stop::EmptyDay(d, day_end)) => Some(
                CalendarItem::EmptyDay(d, self.calendar.find(d, day_end)),
            ),
        }
    }
}

} // verus!
