//! Conversions between the store's numbers, points in time and local times.
use crate::html::{element_views, group, td, text_element, tr, Element, ElementView};
use crate::text::{find_char, first_of, strings_view};
use crate::time::{Duration, LocalTime, SystemTime, MAX_SECS, MIN_SECS};
use vstd::prelude::*;

verus! {

/// The point in time that the store writes as `ts`, a number of milliseconds
/// since the epoch.
pub fn st_from_ts(ts: i64) -> (t: SystemTime)
    requires
        ts >= 0,
    ensures
        t.millis == ts,
{
    SystemTime { millis: ts as u64 }
}

/// The span of time that the store writes as `ts`, a number of milliseconds.
pub fn dur_from_ts(ts: i64) -> (d: Duration)
    requires
        ts >= 0,
    ensures
        d.millis == ts,
{
    Duration { millis: ts as u64 }
}

/// What the store can hold of `millis`: the number itself, or the largest
/// that the store knows where `millis` is beyond that.
pub open spec fn stored(millis: u64) -> int {
    if millis <= i64::MAX {
        millis as int
    } else {
        i64::MAX as int
    }
}

/// The number that the store writes for the span `d`.
pub fn dur(d: &Duration) -> (ts: i64)
    ensures
        ts == stored(d.millis),
{
    if d.millis <= i64::MAX as u64 {
        d.millis as i64
    } else {
        i64::MAX
    }
}

/// The number that the store writes for the point in time `t`.
pub fn ts(t: &SystemTime) -> (ts: i64)
    ensures
        ts == stored(t.millis),
{
    dur(&Duration { millis: t.millis })
}

/// The offset of the local clock from UTC, in seconds, at the point in time
/// `secs` seconds after the epoch: what `chrono::Local` finds for the UTC
/// date and time that `chrono::DateTime::from_timestamp` makes of `secs`.
/// The result depends on the time zone of the machine; a `chrono`
/// `FixedOffset` is always less than a day either way.
#[verifier::external_body]
fn local_offset(secs: i64) -> (offset: i32)
    requires
        MIN_SECS <= secs <= MAX_SECS,
    ensures
        -86_400 < offset < 86_400,
{
    let utc = chrono::DateTime::from_timestamp(secs, 0).unwrap().naive_utc();
    chrono::TimeZone::offset_from_utc_datetime(&chrono::Local, &utc).local_minus_utc()
}

/// The point in time `t`, to the second, as the clock of this machine's time
/// zone shows it.
pub fn date_time_from_st(t: &SystemTime) -> (dt: LocalTime)
    requires
        t.millis / 1000 <= MAX_SECS,
    ensures
        dt.secs == t.millis / 1000,
        dt.wf(),
{
    let secs: i64 = (t.millis / 1000) as i64;
    LocalTime { secs, offset: local_offset(secs) }
}

/// The point in time of the local time `t`; the far end of time where `t`
/// lies before the epoch.
pub fn st_from_date_time(t: &LocalTime) -> (st: SystemTime)
    requires
        t.secs <= MAX_SECS,
    ensures
        st.millis == if t.secs >= 0 {
            t.secs * 1000
        } else {
            u64::MAX as int
        },
{
    if t.secs >= 0 {
        SystemTime { millis: (t.secs as u64) * 1000 }
    } else {
        SystemTime { millis: u64::MAX }
    }
}

/// The span of `millis` milliseconds in words, as `chrono_humanize` puts it.
pub uninterp spec fn humanized(millis: u64) -> Seq<char>;

/// A span of `millis` milliseconds in words: years, months, weeks, days
/// and so on down to the parts that the span has, as
/// `chrono_humanize::HumanTime::to_text_en` puts a `chrono` duration of
/// that many milliseconds with precise accuracy in the present tense.
#[verifier::external_body]
fn to_text_en(millis: u64) -> (text: String)
    requires
        millis <= i64::MAX,
    ensures
        text@ == humanized(millis),
{
    let delta = chrono::TimeDelta::try_milliseconds(millis as i64).unwrap();
    chrono_humanize::HumanTime::from(delta).to_text_en(
        chrono_humanize::Accuracy::Precise,
        chrono_humanize::Tense::Present,
    )
}

/// The span `d` in words.
pub fn human_duration(d: Duration) -> (text: String)
    requires
        d.millis <= i64::MAX,
    ensures
        text@ == humanized(d.millis),
{
    to_text_en(d.millis)
}

/// A span of `millis` milliseconds in words; of no time where `millis` is
/// negative.
pub fn human_ts(millis: i64) -> (text: String)
    ensures
        text@ == humanized(
            if millis >= 0 {
                millis as u64
            } else {
                0
            },
        ),
{
    if millis >= 0 {
        human_duration(Duration { millis: millis as u64 })
    } else {
        human_duration(Duration { millis: 0 })
    }
}

/// The date and time of the second `secs` on a clock `offset` seconds
/// ahead of UTC, written as `pattern` asks in the way of `strftime`.
pub uninterp spec fn formatted(secs: i64, offset: i32, pattern: Seq<char>) -> Seq<char>;

/// The date of the second `secs` on a clock `offset` seconds ahead of UTC,
/// as year, month and day with `-` between them.
pub open spec fn iso_date(secs: i64, offset: i32) -> Seq<char> {
    formatted(secs, offset, "%F"@)
}

/// The date of the second `secs` on a clock `offset` seconds ahead of UTC,
/// as the day of the month, padded with a space to two places, the name
/// of the month in English and the year.
pub open spec fn long_date(secs: i64, offset: i32) -> Seq<char> {
    formatted(secs, offset, "%e %B %Y"@)
}

/// The local time `t` as `chrono::DateTime::format` writes it for
/// `pattern`, one of the two patterns that this crate uses, in the zone of
/// the offset of `t`.
#[verifier::external_body]
fn chrono_format(t: &LocalTime, pattern: &str) -> (text: String)
    requires
        t.wf(),
        pattern@ == "%F"@ || pattern@ == "%e %B %Y"@,
    ensures
        text@ == formatted(t.secs, t.offset, pattern@),
{
    let zone = chrono::FixedOffset::east_opt(t.offset).unwrap();
    let at = chrono::DateTime::from_timestamp(t.secs, 0).unwrap().with_timezone(&zone);
    at.format(pattern).to_string()
}

/// The date of the local time `t`: the day of the month, the name of the
/// month and the year.
pub fn format_long_date(t: &LocalTime) -> (text: String)
    requires
        t.wf(),
    ensures
        text@ == long_date(t.secs, t.offset),
{
    chrono_format(t, "%e %B %Y")
}

/// The date of the local time `t`: the year, the month and the day, with
/// `-` between them.
pub fn format_iso_date(t: &LocalTime) -> (text: String)
    requires
        t.wf(),
    ensures
        text@ == iso_date(t.secs, t.offset),
{
    chrono_format(t, "%F")
}

/// The year of the second `secs` on a clock `offset` seconds ahead of UTC.
pub uninterp spec fn local_year(secs: i64, offset: i32) -> i32;

/// The month, from 1 to 12, of the second `secs` on a clock `offset`
/// seconds ahead of UTC.
pub uninterp spec fn local_month(secs: i64, offset: i32) -> u32;

/// The day of the month of the second `secs` on a clock `offset` seconds
/// ahead of UTC.
pub uninterp spec fn local_day(secs: i64, offset: i32) -> u32;

/// The seconds from the epoch to midnight, UTC, of the day `day` of the
/// month `month` of the year `year`; `None` where there is no such day.
pub uninterp spec fn civil_midnight(year: i32, month: u32, day: u32) -> Option<i64>;

/// The year of the local time `t`: `chrono::Datelike::year` of the date
/// and time that `chrono` makes of the time stamp in the zone of the offset.
#[verifier::external_body]
pub(crate) fn year_of(t: &LocalTime) -> (year: i32)
    requires
        t.wf(),
    ensures
        year == local_year(t.secs, t.offset),
{
    let zone = chrono::FixedOffset::east_opt(t.offset).unwrap();
    let at = chrono::DateTime::from_timestamp(t.secs, 0).unwrap().with_timezone(&zone);
    chrono::Datelike::year(&at)
}

/// The month of the local time `t`, from 1 to 12: `chrono::Datelike::month`
/// of the date and time that `chrono` makes of the time stamp in the zone
/// of the offset.
#[verifier::external_body]
pub(crate) fn month_of(t: &LocalTime) -> (month: u32)
    requires
        t.wf(),
    ensures
        month == local_month(t.secs, t.offset),
{
    let zone = chrono::FixedOffset::east_opt(t.offset).unwrap();
    let at = chrono::DateTime::from_timestamp(t.secs, 0).unwrap().with_timezone(&zone);
    chrono::Datelike::month(&at)
}

/// The day of the month of the local time `t`: `chrono::Datelike::day` of
/// the date and time that `chrono` makes of the time stamp in the zone of
/// the offset.
#[verifier::external_body]
pub(crate) fn day_of(t: &LocalTime) -> (day: u32)
    requires
        t.wf(),
    ensures
        day == local_day(t.secs, t.offset),
{
    let zone = chrono::FixedOffset::east_opt(t.offset).unwrap();
    let at = chrono::DateTime::from_timestamp(t.secs, 0).unwrap().with_timezone(&zone);
    chrono::Datelike::day(&at)
}

/// The time stamp of midnight, UTC, of the date that `chrono` makes of
/// `year`, `month` and `day` with `NaiveDate::from_ymd_opt`; `None` where
/// it makes none.
#[verifier::external_body]
pub(crate) fn midnight_of(year: i32, month: u32, day: u32) -> (secs: Option<i64>)
    ensures
        secs == civil_midnight(year, month, day),
{
    chrono::NaiveDate::from_ymd_opt(year, month, day).map(
        |d| d.and_time(chrono::NaiveTime::MIN).and_utc().timestamp(),
    )
}

/// The local time at which the clock `offset` seconds ahead of UTC shows
/// midnight of the day `day` of the month `month` of the year `year`.
pub open spec fn local_midnight(year: i32, month: u32, day: u32, offset: i32) -> Option<LocalTime> {
    match civil_midnight(year, month, day) {
        None => None,
        Some(secs) => if MIN_SECS <= secs - offset <= MAX_SECS {
            Some(LocalTime { secs: (secs - offset) as i64, offset })
        } else {
            None
        },
    }
}

/// The local time at which the clock `offset` seconds ahead of UTC shows
/// midnight of the day `day` of the month `month` of the year `year`;
/// `None` where there is no such day, or none that a local time can hold.
pub fn ymd(year: i32, month: u32, day: u32, offset: i32) -> (t: Option<LocalTime>)
    requires
        -86_400 < offset < 86_400,
    ensures
        t == local_midnight(year, month, day, offset),
        t matches Some(lt) ==> lt.wf(),
{
    match midnight_of(year, month, day) {
        None => None,
        Some(secs) => {
            if secs >= MIN_SECS - 86_400 && secs <= MAX_SECS + 86_400 && secs - offset as i64
                >= MIN_SECS && secs - offset as i64 <= MAX_SECS {
                Some(LocalTime { secs: secs - offset as i64, offset })
            } else {
                None
            }
        },
    }
}

/// The point in time `t`, to the second, on a clock that is `offset`
/// seconds ahead of UTC.
pub fn local_time(t: &SystemTime, offset: i32) -> (dt: LocalTime)
    requires
        t.millis / 1000 <= MAX_SECS,
        -86_400 < offset < 86_400,
    ensures
        dt.secs == t.millis / 1000,
        dt.offset == offset,
        dt.wf(),
{
    LocalTime { secs: (t.millis / 1000) as i64, offset }
}

/// The date of `t` on the clock of this machine's time zone, as year, month
/// and day.
pub fn st_to_datestring(t: &SystemTime) -> (text: String)
    requires
        t.millis / 1000 <= MAX_SECS,
    ensures
        exists|offset: i32|
            -86_400 < offset < 86_400 && text@ == #[trigger] iso_date(
                (t.millis / 1000) as i64,
                offset,
            ),
{
    let dt = date_time_from_st(t);
    let text = format_iso_date(&dt);
    assert(text@ == iso_date((t.millis / 1000) as i64, dt.offset));
    text
}

/// The name to show for `username`: what stands before its first `:`.
pub open spec fn shown_name(username: Seq<char>) -> Seq<char> {
    username.take(first_of(username, ':'))
}

/// The name to show for `username`: what stands before its first `:`.
pub fn display_username(username: &str) -> (shown: String)
    ensures
        shown@ == shown_name(username@),
{
    let at = find_char(username, ':');
    String::from_str(username.substring_char(0, at))
}

/// The firsts of the pairs of `a`, and their seconds.
pub fn split(a: Vec<(String, String)>) -> (halves: (Vec<String>, Vec<String>))
    ensures
        strings_view(halves.0@) == a@.map_values(|p: (String, String)| p.0@),
        strings_view(halves.1@) == a@.map_values(|p: (String, String)| p.1@),
{
    let mut firsts: Vec<String> = Vec::new();
    let mut seconds: Vec<String> = Vec::new();
    let mut i: usize = 0;
    while i < a.len()
        invariant
            i <= a.len(),
            firsts.len() == i,
            seconds.len() == i,
            forall|j: int| 0 <= j < i ==> (#[trigger] firsts@[j])@ == a@[j].0@,
            forall|j: int| 0 <= j < i ==> (#[trigger] seconds@[j])@ == a@[j].1@,
        decreases a.len() - i,
    {
        firsts.push(a[i].0.clone());
        seconds.push(a[i].1.clone());
        i = i + 1;
    }
    proof {
        assert(strings_view(firsts@) =~= a@.map_values(|p: (String, String)| p.0@));
        assert(strings_view(seconds@) =~= a@.map_values(|p: (String, String)| p.1@));
    }
    (firsts, seconds)
}

/// What a table cell with the text `cell` says.
pub open spec fn cell_view(cell: Seq<char>) -> ElementView {
    text_element("td"@, cell)
}

/// What a table row with the texts `cells` in its cells says.
pub open spec fn row_view(cells: Seq<Seq<char>>) -> ElementView {
    group("tr"@, cells.map_values(|c: Seq<char>| cell_view(c)))
}

/// A table row with the texts of `cells` in its cells.
pub fn make_table_row(cells: Vec<String>) -> (row: Element)
    ensures
        row@ == row_view(strings_view(cells@)),
{
    let mut inner: Vec<Element> = Vec::new();
    let mut i: usize = 0;
    while i < cells.len()
        invariant
            i <= cells.len(),
            inner.len() == i,
            forall|j: int| 0 <= j < i ==> (#[trigger] inner@[j])@ == cell_view(cells@[j]@),
        decreases cells.len() - i,
    {
        inner.push(td(cells[i].clone()));
        i = i + 1;
    }
    proof {
        assert(element_views(inner@) =~= strings_view(cells@).map_values(
            |c: Seq<char>| cell_view(c),
        ));
    }
    tr(inner)
}

/// The date of the point in time `t` on a clock `offset` seconds ahead of
/// UTC, as year, month and day.
pub fn datestring(t: &SystemTime, offset: i32) -> (text: String)
    requires
        t.millis / 1000 <= MAX_SECS,
        -86_400 < offset < 86_400,
    ensures
        text@ == iso_date((t.millis / 1000) as i64, offset),
{
    format_iso_date(&local_time(t, offset))
}

/// The date of the point in time `t` on a clock `offset` seconds ahead of
/// UTC, as the day of the month, the name of the month and the year.
pub fn format_date(t: &SystemTime, offset: i32) -> (text: String)
    requires
        t.millis / 1000 <= MAX_SECS,
        -86_400 < offset < 86_400,
    ensures
        text@ == long_date((t.millis / 1000) as i64, offset),
{
    format_long_date(&local_time(t, offset))
}

} // verus!
