use pearls::plan::{
    active_usernames, allocate, cmp_by_deadline, daily_avail, deadline_order, find_intent,
    find_loads, next_monday, plan_all, plan_in_zone, sum_done, weekly_avail, work_day,
    working_days, WorkLoad, HORIZON_WEEKS,
};
use pearls::store::{Avail, Intent, ProjectRecord, TaskRecord};
use pearls::time::{Duration, LocalTime, SystemTime, Weekday};
use pearls::util::date_time_from_st;
use chrono::Datelike;
use std::cmp::Ordering;

const HOUR: u64 = 3_600;
const DAY: i64 = 86_400;
// Monday 2020-06-15, 00:00:00 UTC
const MONDAY: i64 = 1_592_179_200;

fn at(secs: i64) -> SystemTime {
    SystemTime { millis: secs as u64 * 1000 }
}

fn local(secs: i64) -> LocalTime {
    LocalTime { secs, offset: 0 }
}

fn project(id: i64, name: &str, start: i64, end: Option<i64>) -> ProjectRecord {
    ProjectRecord {
        id,
        name: String::from(name),
        username: String::from("owner"),
        start_time: at(start),
        end_time: end.map(at),
        provision: None,
        completed: None,
        is_meta: false,
        parent: None,
    }
}

fn intent(user: &str, project: &str, hours: u64) -> Intent {
    Intent {
        username: String::from(user),
        project: String::from(project),
        amount: Duration::from_secs(hours * HOUR),
        end_time: None,
    }
}

fn avail(user: &str, start: i64, end: i64, weekly_hours: u64) -> Avail {
    Avail {
        username: String::from(user),
        start_time: at(start),
        end_time: at(end),
        weekly: Duration::from_secs(weekly_hours * HOUR),
    }
}

fn task(user: &str, project: &str, start: i64, end: i64) -> TaskRecord {
    TaskRecord {
        id: 0,
        username: String::from(user),
        start_time: at(start),
        end_time: at(end),
        project: String::from(project),
        task: String::from("work"),
    }
}

fn shape(loads: &Vec<WorkLoad>) -> Vec<(i64, u64)> {
    loads.iter().map(|w| (w.start().secs, w.load().as_secs())).collect()
}

#[test]
fn thirty_hours_at_twenty_a_week_take_two_weeks() {
    let projects = vec![project(1, "c/p", 0, None)];
    let intents = vec![intent("u", "c/p", 30)];
    let avails = vec![avail("u", MONDAY, MONDAY + 56 * DAY, 20)];
    let forecast = plan_in_zone(&projects, &intents, &avails, &vec![], at(MONDAY), 0);
    assert!(!forecast.truncated);
    assert_eq!(forecast.plan.len(), 1);
    assert_eq!(forecast.plan[0].0, "u");
    assert_eq!(forecast.plan[0].1.len(), 1);
    assert_eq!(forecast.plan[0].1[0].0, "c/p");
    let loads = &forecast.plan[0].1[0].1;
    assert_eq!(shape(loads), vec![(MONDAY, 20 * HOUR), (MONDAY + 7 * DAY, 10 * HOUR)]);
    assert_eq!(loads[0].user(), "u");
    assert_eq!(loads[0].project(), "c/p");
    assert_eq!(loads[1].start().weekday(), Weekday::Mon);
}

#[test]
fn without_availability_the_plan_stops_at_the_horizon() {
    let projects = vec![project(1, "c/p", 0, None)];
    let intents = vec![intent("u", "c/p", 30)];
    let forecast = plan_in_zone(&projects, &intents, &vec![], &vec![], at(MONDAY), 0);
    assert!(forecast.truncated);
    let loads = &forecast.plan[0].1[0].1;
    assert_eq!(loads.len() as u64, HORIZON_WEEKS);
    assert!(loads.iter().all(|w| w.load().as_secs() == 0));
    assert_eq!(loads[0].start().secs, MONDAY);
    assert_eq!(loads[519].start().secs, MONDAY + 519 * 7 * DAY);
    let a = allocate(&String::from("u"), &String::from("c/p"), &vec![], &local(MONDAY), 30 * HOUR);
    assert!(a.truncated);
    assert_eq!(a.unscheduled, 30 * HOUR);
    assert_eq!(a.finish.secs, MONDAY + 520 * 7 * DAY);
}

#[test]
fn an_intent_that_is_met_has_no_work_loads() {
    let projects = vec![project(1, "c/p", 0, None)];
    let intents = vec![intent("u", "c/p", 30)];
    let avails = vec![avail("u", MONDAY, MONDAY + 56 * DAY, 20)];
    let dones = vec![
        task("u", "c/p", MONDAY - 20 * DAY, MONDAY - 20 * DAY + 20 * HOUR as i64),
        task("u", "c/p", MONDAY - 10 * DAY, MONDAY - 10 * DAY + 10 * HOUR as i64),
    ];
    let forecast = plan_in_zone(&projects, &intents, &avails, &dones, at(MONDAY), 0);
    assert!(!forecast.truncated);
    assert_eq!(forecast.plan[0].1.len(), 1);
    assert_eq!(forecast.plan[0].1[0].0, "c/p");
    assert!(forecast.plan[0].1[0].1.is_empty());
}

#[test]
fn work_loads_add_up_to_what_is_left_of_the_intent() {
    let projects = vec![project(1, "c/p", 0, None)];
    let intents = vec![intent("u", "c/p", 100)];
    let avails = vec![avail("u", MONDAY, MONDAY + 560 * DAY, 15)];
    let dones = vec![
        task("u", "c/p", MONDAY - 20 * DAY, MONDAY - 20 * DAY + 7 * HOUR as i64),
        task("other", "c/p", MONDAY - 20 * DAY, MONDAY - 20 * DAY + 50 * HOUR as i64),
        task("u", "c/q", MONDAY - 20 * DAY, MONDAY - 20 * DAY + 50 * HOUR as i64),
    ];
    let forecast = plan_in_zone(&projects, &intents, &avails, &dones, at(MONDAY), 0);
    let loads = &forecast.plan[0].1[0].1;
    let sum: u64 = loads.iter().map(|w| w.load().as_secs()).sum();
    assert_eq!(sum, 93 * HOUR);
    assert_eq!(loads.len(), 7);
    assert_eq!(loads[6].load().as_secs(), 3 * HOUR);
}

#[test]
fn a_rest_of_an_hour_or_less_is_not_planned() {
    let a = allocate(
        &String::from("u"),
        &String::from("c/p"),
        &vec![avail("u", MONDAY, MONDAY + 56 * DAY, 20)],
        &local(MONDAY),
        41 * HOUR,
    );
    assert_eq!(shape(&a.loads), vec![(MONDAY, 20 * HOUR), (MONDAY + 7 * DAY, 20 * HOUR)]);
    assert_eq!(a.unscheduled, HOUR);
    assert!(!a.truncated);
    assert_eq!(a.finish.secs, MONDAY + 14 * DAY);
    let b = allocate(
        &String::from("u"),
        &String::from("c/p"),
        &vec![avail("u", MONDAY, MONDAY + 56 * DAY, 20)],
        &local(MONDAY),
        HOUR,
    );
    assert!(b.loads.is_empty());
    assert_eq!(b.unscheduled, HOUR);
}

#[test]
fn the_last_load_ends_part_of_the_way_into_its_week() {
    let a = allocate(
        &String::from("u"),
        &String::from("c/p"),
        &vec![avail("u", MONDAY, MONDAY + 56 * DAY, 20)],
        &local(MONDAY),
        10 * HOUR,
    );
    assert_eq!(shape(&a.loads), vec![(MONDAY, 10 * HOUR)]);
    assert_eq!(a.unscheduled, 0);
    assert_eq!(a.finish.secs, MONDAY + 2 * DAY);
}

#[test]
fn a_week_that_starts_on_a_wednesday_has_three_working_days() {
    let wednesday = MONDAY + 2 * DAY + 9 * HOUR as i64;
    let avails = vec![avail("u", 0, MONDAY + 560 * DAY, 20)];
    assert_eq!(working_days(&local(wednesday)), 3);
    assert_eq!(weekly_avail(&local(wednesday), &String::from("u"), &avails), 12 * HOUR);
    let a = allocate(&String::from("u"), &String::from("c/p"), &avails, &local(wednesday), 30 * HOUR);
    assert_eq!(
        shape(&a.loads),
        vec![(wednesday, 12 * HOUR), (MONDAY + 7 * DAY + 9 * HOUR as i64, 18 * HOUR)]
    );
}

#[test]
fn working_days_count_down_through_the_week() {
    let expected = [5, 4, 3, 2, 1, 0, 0];
    for (i, days) in expected.iter().enumerate() {
        assert_eq!(working_days(&local(MONDAY + i as i64 * DAY + 12345)), *days);
    }
}

#[test]
fn next_monday_is_the_monday_after() {
    for i in 0..7 {
        let dt = local(MONDAY + i * DAY + 4321);
        let monday = next_monday(&dt);
        assert_eq!(monday.secs, MONDAY + 7 * DAY + 4321);
        assert_eq!(monday.weekday(), Weekday::Mon);
        assert!(monday.secs > dt.secs && monday.secs <= dt.secs + 7 * DAY);
    }
    assert_eq!(next_monday(&local(MONDAY)).secs, MONDAY + 7 * DAY);
    assert_eq!(next_monday(&local(MONDAY - 1)).secs, MONDAY - 1 + DAY);
}

#[test]
fn next_monday_goes_by_the_local_clock() {
    // Sunday 23:00 UTC is Monday 01:00 two hours east
    let dt = LocalTime { secs: MONDAY - HOUR as i64, offset: 7_200 };
    assert_eq!(dt.weekday(), Weekday::Mon);
    assert_eq!(next_monday(&dt).secs, MONDAY - HOUR as i64 + 7 * DAY);
    let west = LocalTime { secs: MONDAY + HOUR as i64, offset: -7_200 };
    assert_eq!(west.weekday(), Weekday::Sun);
    assert_eq!(next_monday(&west).secs, MONDAY + HOUR as i64 + DAY);
}

#[test]
fn weekdays_are_those_of_the_calendar() {
    let offsets = [0, 3_600, -3_600, 86_399, -86_399, 19_800];
    let mut secs: i64 = -253_402_300_799;
    while secs <= 253_402_300_799 {
        for offset in offsets.iter() {
            let zone = chrono::FixedOffset::east_opt(*offset).unwrap();
            let expected = chrono::DateTime::from_timestamp(secs, 0)
                .unwrap()
                .with_timezone(&zone)
                .weekday()
                .num_days_from_monday();
            let ours = LocalTime { secs, offset: *offset }.weekday().num_days_from_monday();
            assert_eq!(ours, expected, "at {} with offset {}", secs, offset);
        }
        secs += 1_234_567_891;
    }
    for secs in [-1i64, 0, 1, 86_399, 86_400, -86_400, -86_401, MONDAY, MONDAY - 1] {
        let expected = chrono::DateTime::from_timestamp(secs, 0).unwrap().weekday().num_days_from_monday();
        assert_eq!(local(secs).weekday().num_days_from_monday(), expected);
    }
}

#[test]
fn the_working_day_runs_from_ten_to_six_on_the_local_clock() {
    assert_eq!(work_day(&local(MONDAY + 5)), (MONDAY + 10 * HOUR as i64, MONDAY + 18 * HOUR as i64));
    let east = LocalTime { secs: MONDAY + 5, offset: 7_200 };
    assert_eq!(work_day(&east), (MONDAY + 8 * HOUR as i64, MONDAY + 16 * HOUR as i64));
}

#[test]
fn the_day_has_the_least_share_of_the_windows_that_overlap_it() {
    let user = String::from("u");
    let avails = vec![
        avail("u", MONDAY, MONDAY + 7 * DAY, 40),
        avail("u", MONDAY + DAY, MONDAY + 2 * DAY, 10),
        avail("v", MONDAY, MONDAY + 7 * DAY, 5),
        // ends as the working day of Wednesday starts: does not overlap it
        avail("u", MONDAY + DAY, MONDAY + 2 * DAY + 10 * HOUR as i64, 1),
    ];
    assert_eq!(daily_avail(&local(MONDAY), &user, &avails), 8 * HOUR);
    assert_eq!(daily_avail(&local(MONDAY + DAY), &user, &avails), HOUR / 5);
    assert_eq!(daily_avail(&local(MONDAY + 2 * DAY), &user, &avails), 8 * HOUR);
    assert_eq!(daily_avail(&local(MONDAY + 8 * DAY), &user, &avails), 0);
    assert_eq!(daily_avail(&local(MONDAY), &String::from("w"), &avails), 0);
    assert_eq!(weekly_avail(&local(MONDAY), &user, &avails), 4 * 8 * HOUR + HOUR / 5);
}

#[test]
fn a_window_counts_only_where_it_overlaps_the_working_day() {
    let user = String::from("u");
    let morning = vec![avail("u", MONDAY, MONDAY + 10 * HOUR as i64, 40)];
    assert_eq!(daily_avail(&local(MONDAY), &user, &morning), 0);
    let just_in = vec![avail("u", MONDAY, MONDAY + 10 * HOUR as i64 + 1, 40)];
    assert_eq!(daily_avail(&local(MONDAY), &user, &just_in), 8 * HOUR);
    let evening = vec![avail("u", MONDAY + 18 * HOUR as i64, MONDAY + DAY, 40)];
    assert_eq!(daily_avail(&local(MONDAY), &user, &evening), 0);
}

#[test]
fn projects_are_ordered_by_deadline() {
    let a = project(1, "a", 50, Some(100));
    let b = project(2, "b", 40, Some(200));
    let c = project(3, "c", 30, None);
    let d = project(4, "d", 20, None);
    assert_eq!(cmp_by_deadline(&a, &b), Ordering::Less);
    assert_eq!(cmp_by_deadline(&b, &a), Ordering::Greater);
    assert_eq!(cmp_by_deadline(&a, &a), Ordering::Equal);
    assert_eq!(cmp_by_deadline(&a, &c), Ordering::Less);
    assert_eq!(cmp_by_deadline(&c, &b), Ordering::Greater);
    assert_eq!(cmp_by_deadline(&d, &c), Ordering::Less);
    assert_eq!(cmp_by_deadline(&c, &c), Ordering::Equal);
    let mut done = project(5, "done", 0, Some(1));
    done.completed = Some(at(10));
    let b2 = project(6, "b2", 10, Some(200));
    let projects = vec![c, b, done, d, a, b2];
    assert_eq!(deadline_order(&projects), vec![4, 1, 5, 3, 0]);
}

#[test]
fn the_plan_lists_projects_by_deadline() {
    let projects = vec![
        project(1, "c/undated", 0, None),
        project(2, "c/late", 0, Some(MONDAY + 100 * DAY)),
        project(3, "c/soon", 0, Some(MONDAY + 10 * DAY)),
        project(4, "c/unwanted", 0, Some(MONDAY + DAY)),
    ];
    let intents =
        vec![intent("u", "c/undated", 2), intent("u", "c/late", 2), intent("u", "c/soon", 2)];
    let avails = vec![avail("u", MONDAY, MONDAY + 56 * DAY, 20)];
    let forecast = plan_in_zone(&projects, &intents, &avails, &vec![], at(MONDAY), 0);
    let names: Vec<&str> = forecast.plan[0].1.iter().map(|e| e.0.as_str()).collect();
    assert_eq!(names, vec!["c/soon", "c/late", "c/undated"]);
    for entry in forecast.plan[0].1.iter() {
        assert_eq!(shape(&entry.1), vec![(MONDAY, 2 * HOUR)]);
    }
}

#[test]
fn users_are_planned_once_each_in_the_order_of_their_intents() {
    let mut expired = intent("gone", "c/p", 5);
    expired.end_time = Some(at(MONDAY));
    let mut standing = intent("stays", "c/p", 5);
    standing.end_time = Some(SystemTime { millis: at(MONDAY).millis + 1 });
    let intents = vec![
        intent("b", "c/p", 5),
        expired,
        intent("a", "c/p", 5),
        intent("b", "c/q", 5),
        standing,
    ];
    assert_eq!(active_usernames(&intents, &at(MONDAY)), vec!["b", "a", "stays"]);
    let projects = vec![project(1, "c/p", 0, None), project(2, "c/q", 0, None)];
    let forecast = plan_in_zone(&projects, &intents, &vec![], &vec![], at(MONDAY), 0);
    let users: Vec<&str> = forecast.plan.iter().map(|e| e.0.as_str()).collect();
    assert_eq!(users, vec!["b", "a", "stays"]);
    assert_eq!(forecast.plan[0].1.len(), 2);
    assert_eq!(forecast.plan[1].1.len(), 1);
}

#[test]
fn an_expired_intent_is_not_planned() {
    let mut expired = intent("u", "c/p", 5);
    expired.end_time = Some(at(MONDAY - 1));
    let intents = vec![expired, intent("u", "c/q", 5)];
    let user = String::from("u");
    assert!(find_intent(&user, &String::from("c/p"), &intents, &at(MONDAY)).is_none());
    assert!(find_intent(&user, &String::from("c/q"), &intents, &at(MONDAY)).is_some());
    assert!(find_intent(&user, &String::from("c/p"), &intents, &at(MONDAY - 2)).is_some());
    let projects = vec![project(1, "c/p", 0, None), project(2, "c/q", 0, None)];
    let avails = vec![avail("u", MONDAY, MONDAY + 56 * DAY, 20)];
    let forecast = plan_in_zone(&projects, &intents, &avails, &vec![], at(MONDAY), 0);
    assert_eq!(forecast.plan[0].1.len(), 1);
    assert_eq!(forecast.plan[0].1[0].0, "c/q");
}

#[test]
fn completed_projects_are_not_planned() {
    let mut p = project(1, "c/p", 0, None);
    p.completed = Some(at(MONDAY));
    let forecast =
        plan_in_zone(&vec![p], &vec![intent("u", "c/p", 5)], &vec![], &vec![], at(MONDAY), 0);
    assert_eq!(forecast.plan.len(), 1);
    assert!(forecast.plan[0].1.is_empty());
}

#[test]
fn sum_done_adds_the_whole_seconds_of_each_task() {
    let dones = vec![
        task("u", "c/p", 100, 200),
        task("u", "c/p", 500, 400),
        task("v", "c/p", 0, 1000),
        task("u", "c/q", 0, 1000),
        TaskRecord {
            id: 0,
            username: String::from("u"),
            start_time: SystemTime { millis: 0 },
            end_time: SystemTime { millis: 1999 },
            project: String::from("c/p"),
            task: String::from("t"),
        },
    ];
    assert_eq!(sum_done(&String::from("u"), &String::from("c/p"), &dones), 101);
}

#[test]
fn find_loads_picks_the_loads_that_start_in_the_window() {
    let projects = vec![project(1, "c/p", 0, Some(5)), project(2, "c/q", 0, None)];
    let intents = vec![intent("u", "c/p", 50), intent("v", "c/q", 30), intent("u", "c/q", 40)];
    let avails = vec![
        avail("u", MONDAY, MONDAY + 560 * DAY, 20),
        avail("v", MONDAY, MONDAY + 560 * DAY, 20),
    ];
    let forecast = plan_in_zone(&projects, &intents, &avails, &vec![], at(MONDAY), 0);
    let plan = &forecast.plan;
    let first = find_loads(plan, &local(MONDAY), &local(MONDAY + 7 * DAY));
    let who: Vec<(&str, &str, u64)> =
        first.iter().map(|w| (w.user(), w.project(), w.load().as_secs() / HOUR)).collect();
    assert_eq!(who, vec![("u", "c/p", 20), ("u", "c/q", 20), ("v", "c/q", 20)]);
    let second = find_loads(plan, &local(MONDAY + 7 * DAY), &local(MONDAY + 14 * DAY));
    let who: Vec<(&str, &str, u64)> =
        second.iter().map(|w| (w.user(), w.project(), w.load().as_secs() / HOUR)).collect();
    assert_eq!(who, vec![("u", "c/p", 20), ("u", "c/q", 20), ("v", "c/q", 10)]);
    // the end of the window is not part of it, its start is
    assert_eq!(find_loads(plan, &local(MONDAY - DAY), &local(MONDAY)).len(), 0);
    assert_eq!(find_loads(plan, &local(MONDAY - DAY), &local(MONDAY + 1)).len(), 3);
    assert_eq!(find_loads(plan, &local(MONDAY + 1), &local(MONDAY + 7 * DAY)).len(), 0);
    let all = find_loads(plan, &local(0), &local(MONDAY + 1000 * DAY));
    assert_eq!(all.len(), 3 + 2 + 2);
    assert_eq!(find_loads(plan, &local(MONDAY + 7 * DAY), &local(MONDAY)).len(), 0);
}

#[test]
fn plan_all_reads_the_clock_of_the_machine() {
    let projects = vec![project(1, "c/p", 0, None)];
    let intents = vec![intent("u", "c/p", 2)];
    let avails = vec![avail("u", 0, MONDAY + 560 * DAY, 20)];
    // Wednesday noon UTC is a Wednesday everywhere
    let now = at(MONDAY + 2 * DAY + 12 * HOUR as i64);
    let plan = plan_all(&projects, &intents, &avails, &vec![], now);
    assert_eq!(plan.len(), 1);
    assert_eq!(shape(&plan[0].1[0].1), vec![(MONDAY + 2 * DAY + 12 * HOUR as i64, 2 * HOUR)]);
}

#[test]
fn work_loads_come_week_by_week_and_none_before_the_start() {
    let thursday = MONDAY + 3 * DAY + 9 * 3_600;
    let projects = vec![project(1, "c/p", 0, None)];
    let intents = vec![intent("u", "c/p", 50)];
    let avails = vec![avail("u", MONDAY - DAY, MONDAY + 560 * DAY, 20)];
    let forecast = plan_in_zone(&projects, &intents, &avails, &vec![], at(thursday), 0);
    let loads = &forecast.plan[0].1[0].1;
    assert_eq!(
        shape(loads),
        vec![
            (thursday, 8 * HOUR),
            (thursday + 4 * DAY, 20 * HOUR),
            (thursday + 11 * DAY, 20 * HOUR),
            (thursday + 18 * DAY, 2 * HOUR),
        ]
    );
    assert!(loads.iter().all(|w| w.start().secs >= thursday));
    assert!(loads.windows(2).all(|w| w[0].start().secs < w[1].start().secs));
    assert!(loads[1..].iter().all(|w| w.start().weekday() == Weekday::Mon));
}

#[test]
fn every_load_but_the_last_takes_the_whole_week() {
    let projects = vec![project(1, "c/p", 0, None)];
    let intents = vec![intent("u", "c/p", 45)];
    let avails = vec![avail("u", MONDAY, MONDAY + 560 * DAY, 10)];
    let user = String::from("u");
    let forecast = plan_in_zone(&projects, &intents, &avails, &vec![], at(MONDAY), 0);
    let loads = &forecast.plan[0].1[0].1;
    assert_eq!(loads.len(), 5);
    for w in &loads[..4] {
        assert_eq!(w.load().as_secs(), weekly_avail(w.start(), &user, &avails));
        assert_eq!(w.load().as_secs(), 10 * HOUR);
    }
    assert_eq!(loads[4].load().as_secs(), 5 * HOUR);
    assert!(loads[4].load().as_secs() < weekly_avail(loads[4].start(), &user, &avails));
}

fn machine_now() -> SystemTime {
    let since = std::time::SystemTime::now().duration_since(std::time::UNIX_EPOCH).unwrap();
    SystemTime { millis: since.as_secs() * 1000 }
}

fn snapshot(now: i64) -> (Vec<ProjectRecord>, Vec<Intent>, Vec<Avail>, Vec<TaskRecord>) {
    let projects = vec![
        project(1, "c/p", now - 40 * DAY, None),
        project(2, "c/q", now - 30 * DAY, Some(now + 30 * DAY)),
    ];
    let intents = vec![intent("u", "c/p", 30), intent("u", "c/q", 12), intent("v", "c/p", 8)];
    let avails = vec![
        avail("u", now - DAY, now + 400 * DAY, 20),
        avail("v", now - DAY, now + 400 * DAY, 10),
    ];
    let dones = vec![task("u", "c/q", now - 5 * DAY, now - 5 * DAY + 2 * HOUR as i64)];
    (projects, intents, avails, dones)
}

#[test]
fn all_of_a_plan_is_possible() {
    let now = machine_now();
    let secs = (now.millis / 1000) as i64;
    let (projects, intents, avails, dones) = snapshot(secs);
    let plan = plan_all(&projects, &intents, &avails, &dones, now);
    let mut lines: Vec<String> = Vec::new();
    for (name, user_loads) in plan.iter() {
        println!("{}", name);
        for (project, loads) in user_loads {
            println!("  {}", project);
            for load in loads {
                println!("    {}", load.to_string());
                lines.push(load.to_string());
            }
        }
    }
    let names: Vec<&str> = plan.iter().map(|(name, _)| name.as_str()).collect();
    assert_eq!(names, vec!["u", "v"]);
    let of_u: Vec<(&str, u64)> = plan[0]
        .1
        .iter()
        .map(|(p, loads)| (p.as_str(), loads.iter().map(|w| w.load().as_secs()).sum()))
        .collect();
    assert_eq!(of_u, vec![("c/q", 10 * HOUR), ("c/p", 30 * HOUR)]);
    let of_v: Vec<(&str, u64)> = plan[1]
        .1
        .iter()
        .map(|(p, loads)| (p.as_str(), loads.iter().map(|w| w.load().as_secs()).sum()))
        .collect();
    assert_eq!(of_v, vec![("c/p", 8 * HOUR)]);
    assert!(lines.iter().all(|l| l.starts_with("c/pu ") || l.starts_with("c/qu ") || l.starts_with("c/pv ")));
    for (_, user_loads) in plan.iter() {
        for (_, loads) in user_loads {
            assert!(loads.iter().all(|w| w.start().secs >= secs));
        }
    }
}

#[test]
fn find_next_year_loads() {
    let now = machine_now();
    let secs = (now.millis / 1000) as i64;
    let (projects, intents, avails, dones) = snapshot(secs);
    let plan = plan_all(&projects, &intents, &avails, &dones, now);
    let max_avail =
        date_time_from_st(&avails.iter().fold(now, |acc, a| {
            if a.end_time.millis > acc.millis {
                a.end_time
            } else {
                acc
            }
        }));
    let year = date_time_from_st(&now).checked_add(361 * DAY).unwrap();
    let max = if max_avail.before(&year) { year } else { max_avail };
    assert_eq!(max.secs, secs + 400 * DAY);
    let first = next_monday(&date_time_from_st(&now));
    let mut start = first;
    let mut found = 0;
    let mut weeks = 0;
    while start.before(&max) {
        let end = next_monday(&start);
        let loads = find_loads(&plan, &start, &end);
        for load in loads {
            println!("== {}", load.to_string());
            assert!(load.start().secs >= start.secs && load.start().secs < end.secs);
            found += 1;
        }
        start = end;
        weeks += 1;
    }
    assert_eq!(weeks, 57);
    let later: usize = plan
        .iter()
        .flat_map(|(_, user_loads)| user_loads.iter())
        .flat_map(|(_, loads)| loads.iter())
        .filter(|w| w.start().secs >= first.secs)
        .count();
    assert_eq!(found, later);
    assert!(found >= 1);
}
