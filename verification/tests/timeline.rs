use pearls::store::ProjectRecord;
use pearls::time::{Duration, SystemTime};
use pearls::timeline::{
    arrange, format_hour, get_size, make_gauge, remaining, round_div, to_hour, wrapper_class,
    ProjectSize,
};
use pearls::timeline2::{Gauge, RelAbs, TimelineProject};

fn project(name: &str, end: Option<u64>, provision: Option<u64>, completed: Option<u64>) -> ProjectRecord {
    ProjectRecord {
        id: 1,
        name: String::from(name),
        username: String::from("u"),
        start_time: SystemTime { millis: 0 },
        end_time: end.map(|millis| SystemTime { millis }),
        provision: provision.map(|millis| Duration { millis }),
        completed: completed.map(|millis| SystemTime { millis }),
        is_meta: false,
        parent: None,
    }
}

#[test]
fn test_round() {
    assert_eq!(2, round_div(5, 2));
    assert_eq!(2, round_div(10, 6));
}

#[test]
fn round_div_rounds_halves_down_and_the_rest_to_the_nearest() {
    assert_eq!(round_div(0, 7), 0);
    assert_eq!(round_div(7, 2), 3);
    assert_eq!(round_div(9, 4), 2);
    assert_eq!(round_div(11, 4), 3);
    assert_eq!(round_div(u64::MAX, 1), u64::MAX);
    assert_eq!(round_div(u64::MAX, u64::MAX), 1);
}

#[test]
fn to_hour_rounds_to_the_nearest_hour() {
    assert_eq!(to_hour(Duration::from_secs(3600)), 1);
    assert_eq!(to_hour(Duration::from_secs(1799)), 0);
    assert_eq!(to_hour(Duration::from_secs(1800)), 1);
    assert_eq!(to_hour(Duration::from_secs(9000)), 3);
    assert_eq!(format_hour(Duration::from_secs(7200)), "2h");
}

#[test]
fn sizes_change_at_fifty_two_hundred_and_fifty_and_a_thousand_hours() {
    assert_eq!(get_size(0), ProjectSize::Small);
    assert_eq!(get_size(49), ProjectSize::Small);
    assert_eq!(get_size(50), ProjectSize::Medium);
    assert_eq!(get_size(249), ProjectSize::Medium);
    assert_eq!(get_size(250), ProjectSize::Large);
    assert_eq!(get_size(999), ProjectSize::Large);
    assert_eq!(get_size(1000), ProjectSize::Huge);
}

#[test]
fn gauge_shows_the_shares_of_the_provision() {
    let e = make_gauge(&Duration::from_secs(35999), &Duration::from_secs(8999));
    assert_eq!(
        e.as_string(),
        "<div class=\"project-gauge small\"><div class=\"time-over\" style=\"height:0%;\"></div>\n<div class=\"time-available\" style=\"height:75%;\"></div>\n<div class=\"time-done\" style=\"height:25%;\"></div></div>"
    );
    let over = make_gauge(&Duration::from_secs(3599), &Duration::from_secs(7199));
    assert_eq!(
        over.as_string(),
        "<div class=\"project-gauge small\"><div class=\"time-over\" style=\"height:50%;\"></div>\n<div class=\"time-available\" style=\"height:0%;\"></div>\n<div class=\"time-done\" style=\"height:50%;\"></div></div>"
    );
}

#[test]
fn remaining_says_what_is_left_or_over() {
    let left = remaining(Duration::from_secs(36000), Duration::from_secs(7200));
    assert_eq!(
        left.as_string(),
        "<div class=\"info-wrapper remaining\"><div class=\"label\">Remaining:</div>\n<div class=\"value\"><span>8h</span></div></div>"
    );
    let over = remaining(Duration::from_secs(3600), Duration::from_secs(7200));
    assert_eq!(
        over.as_string(),
        "<div class=\"info-wrapper overtime\"><div class=\"label\">Overtime: </div>\n<div class=\"value\"><span>1h</span></div></div>"
    );
}

#[test]
fn wrapper_class_marks_completed_projects() {
    assert_eq!(wrapper_class(None), "project-wrapper");
    assert_eq!(wrapper_class(Some(SystemTime { millis: 1 })), "project-wrapper completed");
}

#[test]
fn arrange_puts_open_projects_by_deadline_and_completed_ones_behind() {
    let none = Duration { millis: 0 };
    let active = vec![
        (project("late", Some(300), None, None), none, vec![]),
        (project("undated", None, None, None), none, vec![]),
        (project("soon", Some(100), None, None), none, vec![]),
        (project("undated-too", None, None, None), none, vec![]),
        (project("also-soon", Some(100), None, None), none, vec![]),
    ];
    let completed = vec![
        (project("first-done", None, None, Some(10)), none, vec![]),
        (project("last-done", None, None, Some(20)), none, vec![]),
    ];
    let names: Vec<String> = arrange(active, completed).into_iter().map(|p| p.0.name).collect();
    assert_eq!(
        names,
        vec!["soon", "also-soon", "late", "undated", "undated-too", "last-done", "first-done"]
    );
}

#[test]
fn timeline_project_has_gauge_and_size() {
    let p = TimelineProject::new(
        project("p", None, Some(360_000_000), None),
        Duration::from_secs(35_999),
        vec![],
    );
    assert_eq!(p.size, "medium");
    assert_eq!(
        p.gauge,
        Gauge {
            overtime: RelAbs { value: 0, percent: 0 },
            available: RelAbs { value: 100, percent: 90 },
            done: RelAbs { value: 10, percent: 10 },
        }
    );
    let bare = TimelineProject::new(project("q", None, None, None), Duration::from_secs(7199), vec![]);
    assert_eq!(bare.size, "small");
    assert_eq!(
        bare.gauge,
        Gauge {
            overtime: RelAbs { value: 0, percent: 0 },
            available: RelAbs { value: 0, percent: 0 },
            done: RelAbs { value: 2, percent: 100 },
        }
    );
}
