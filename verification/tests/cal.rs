use pearls::cal::{
    day, day_of_week, find_end_of_month, find_end_of_year, month, month_name, week, year, CalRange,
    Calendar, CalendarItem, Stride,
};
use chrono::Datelike;
use pearls::time::LocalTime;
use pearls::util::ymd;

fn parts(t: &LocalTime) -> (i32, u32, u32) {
    let zone = chrono::FixedOffset::east_opt(t.offset).unwrap();
    let at = chrono::DateTime::from_timestamp(t.secs, 0).unwrap().with_timezone(&zone);
    (at.year(), at.month(), at.day())
}

fn year_of(t: &LocalTime) -> i32 {
    parts(t).0
}

fn month_of(t: &LocalTime) -> u32 {
    parts(t).1
}

fn day_of(t: &LocalTime) -> u32 {
    parts(t).2
}

const HOUR: i64 = 3_600;
const DAY: i64 = 86_400;
// 2020-01-01 00:00:00 UTC, a Wednesday
const NEW_YEAR_2020: i64 = 1_577_836_800;

fn local(secs: i64) -> LocalTime {
    LocalTime { secs, offset: 0 }
}

#[test]
fn iter_day_ok() {
    let s = ymd(2020, 1, 1, 0).unwrap();
    let range = day(2020, 1, 1, 0).unwrap();
    if let Some((start, end)) = range.iter().unwrap().next() {
        assert_eq!(start, s);
        assert_eq!(end, s.checked_add(HOUR).unwrap());
    }
}

#[test]
fn week_start_ok() {
    let d0 = 6;
    let d1 = 12;
    let dt0 = ymd(2020, 1, d0, 0).unwrap();
    let dt1 = ymd(2020, 1, d1, 0).unwrap();
    let w0 = week(year_of(&dt0), month_of(&dt0), d0, 0).unwrap();
    let w1 = week(year_of(&dt1), month_of(&dt1), d1, 0).unwrap();
    let (start0, _) = w0.interval().unwrap();
    let (start1, _) = w1.interval().unwrap();
    assert_eq!(start0, dt0);
    assert_eq!(start0, start1);
}

#[test]
fn iter_calendar_ok() {
    let mut cal: Calendar<u32> = Calendar::new(0);
    let (s0, e0) = (local(NEW_YEAR_2020 + 12 * HOUR), local(NEW_YEAR_2020 + 14 * HOUR));
    let (s1, e1) = (
        local(NEW_YEAR_2020 + 366 * DAY + 12 * HOUR),
        local(NEW_YEAR_2020 + 366 * DAY + 14 * HOUR),
    );
    cal.push(s0, e0, 1);
    cal.push(s1, e1, 2);
    let mut prev_year: Option<LocalTime> = None;
    let mut prev_month: Option<LocalTime> = None;
    let mut years = 0;
    let mut months = 0;
    let mut days_with_events = Vec::new();
    let mut it = cal.iter().unwrap();
    let mut steps = 0;
    while let Some(i) = it.next() {
        steps += 1;
        assert!(steps < 10_000);
        match i {
            CalendarItem::Year(d) => {
                prev_year.map(|pd| assert_ne!(d, pd));
                years += 1;
                prev_year = Some(d);
            }
            CalendarItem::Month(d) => {
                prev_month.map(|pd| assert_ne!(d, pd));
                months += 1;
                prev_month = Some(d);
            }
            CalendarItem::Week(_) => {}
            CalendarItem::Day(d, es) => {
                let u = es.first().map(|e| e.data).unwrap_or(0);
                if u != 0 {
                    days_with_events.push((year_of(&d), month_of(&d), day_of(&d), u));
                }
            }
            CalendarItem::EmptyDay(_, _) => {}
        }
    }
    assert_eq!(years, 2);
    assert_eq!(months, 13);
    assert_eq!(days_with_events, vec![(2020, 1, 1, 1), (2021, 1, 1, 2)]);
}

#[test]
fn ranges_start_where_the_calendar_says() {
    assert_eq!(day(2020, 1, 1, 0), Some(CalRange::Day(local(NEW_YEAR_2020))));
    assert_eq!(week(2020, 1, 1, 0), Some(CalRange::Week(local(NEW_YEAR_2020 - 2 * DAY))));
    assert_eq!(month(2020, 2, 0), Some(CalRange::Month(local(NEW_YEAR_2020 + 31 * DAY))));
    assert_eq!(year(2021, 0), Some(CalRange::Year(local(NEW_YEAR_2020 + 366 * DAY))));
    assert_eq!(day(2020, 2, 30, 0), None);
    assert_eq!(month(2020, 13, 0), None);
    assert_eq!(year(10_000, 0), None);
    // two hours east, midnight comes two hours before midnight UTC
    assert_eq!(
        day(2020, 1, 1, 7_200),
        Some(CalRange::Day(LocalTime { secs: NEW_YEAR_2020 - 7_200, offset: 7_200 }))
    );
}

#[test]
fn months_and_years_end_where_the_next_starts() {
    assert_eq!(find_end_of_month(local(NEW_YEAR_2020)), local(NEW_YEAR_2020 + 31 * DAY));
    assert_eq!(find_end_of_month(local(NEW_YEAR_2020 + 40 * DAY)), local(NEW_YEAR_2020 + 60 * DAY));
    assert_eq!(find_end_of_year(local(NEW_YEAR_2020)), local(NEW_YEAR_2020 + 366 * DAY));
    assert_eq!(
        find_end_of_year(local(NEW_YEAR_2020 + 366 * DAY)),
        local(NEW_YEAR_2020 + 366 * DAY + 365 * DAY)
    );
    // from the middle of a year, neither 365 nor 366 days on is the next
    // year's start, but both lie in it
    assert_eq!(
        find_end_of_year(local(NEW_YEAR_2020 + 100 * DAY)),
        local(NEW_YEAR_2020 + 465 * DAY)
    );
}

#[test]
fn ranges_know_what_is_in_them() {
    let january = month(2020, 1, 0).unwrap();
    assert!(january.in_range(local(NEW_YEAR_2020)));
    assert!(january.in_range(local(NEW_YEAR_2020 + 31 * DAY - 1)));
    assert!(!january.in_range(local(NEW_YEAR_2020 + 31 * DAY)));
    assert!(!january.in_range(local(NEW_YEAR_2020 - 1)));
    assert_eq!(
        january.interval(),
        Some((local(NEW_YEAR_2020), local(NEW_YEAR_2020 + 31 * DAY)))
    );
}

#[test]
fn next_and_prev_move_through_the_ranges() {
    let d = day(2020, 1, 1, 0).unwrap();
    assert_eq!(d.next(), day(2020, 1, 2, 0));
    assert_eq!(d.prev(), day(2019, 12, 31, 0));
    let w = week(2020, 1, 1, 0).unwrap();
    assert_eq!(w.next(), week(2020, 1, 8, 0));
    assert_eq!(w.prev(), week(2019, 12, 25, 0));
    assert_eq!(month(2020, 1, 0).unwrap().next(), month(2020, 2, 0));
    assert_eq!(month(2020, 12, 0).unwrap().next(), month(2021, 1, 0));
    assert_eq!(month(2020, 1, 0).unwrap().prev(), month(2019, 12, 0));
    assert_eq!(month(2020, 5, 0).unwrap().prev(), month(2020, 5, 0));
    assert_eq!(year(2020, 0).unwrap().next(), year(2021, 0));
    assert_eq!(year(2020, 0).unwrap().prev(), year(2021, 0));
}

#[test]
fn a_week_is_walked_day_by_day_and_a_month_week_by_week() {
    let mut it = week(2020, 1, 6, 0).unwrap().iter().unwrap();
    assert_eq!(it.step, Stride::Days);
    let mut days = 0;
    while let Some((start, end)) = it.next() {
        assert_eq!(end.secs - start.secs, DAY);
        days += 1;
    }
    assert_eq!(days, 7);
    let mut it = month(2020, 2, 0).unwrap().iter().unwrap();
    let mut ends = Vec::new();
    while let Some((_, end)) = it.next() {
        ends.push((month_of(&end), day_of(&end)));
    }
    assert_eq!(ends, vec![(2, 8), (2, 15), (2, 22), (2, 29), (3, 1)]);
}

#[test]
fn days_and_months_have_names() {
    assert_eq!(day_of_week(&local(NEW_YEAR_2020)), "Wednesday");
    assert_eq!(day_of_week(&local(NEW_YEAR_2020 + 4 * DAY)), "Sunday");
    assert_eq!(day_of_week(&local(NEW_YEAR_2020 + 5 * DAY)), "Monday");
    assert_eq!(month_name(&local(NEW_YEAR_2020)), "January");
    assert_eq!(month_name(&local(NEW_YEAR_2020 + 335 * DAY)), "December");
}

#[test]
fn events_are_found_where_they_start_or_end() {
    let mut cal: Calendar<&str> = Calendar::new(0);
    cal.push(local(100), local(200), "inside");
    cal.push(local(50), local(150), "ends inside");
    cal.push(local(150), local(500), "starts inside");
    cal.push(local(10), local(500), "around");
    cal.push(local(90), local(300), "starts at the start");
    let found: Vec<&str> = cal.find(local(90), local(300)).iter().map(|e| e.data).collect();
    assert_eq!(found, vec!["inside", "ends inside", "starts inside"]);
    assert_eq!(cal.start_time(), local(10));
    assert_eq!(cal.end_time(), local(500));
    let empty: Calendar<u8> = Calendar::new(3_600);
    assert_eq!(empty.start_time(), LocalTime { secs: 32_503_680_000 - 3_600, offset: 3_600 });
    assert_eq!(empty.end_time(), LocalTime { secs: -62_135_596_800 - 3_600, offset: 3_600 });
}
