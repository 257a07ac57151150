use pearls::bot::{
    classify, handle_join, handle_recvs, is_for_handlers, kind_of_message, outgoing, BotAction,
    BotEvent, Incoming, MessageType, Outgoing,
};
use pearls::calendar::{cal, cal_page, cal_project, make_csv_link, make_day, month_and_year};
use pearls::helpers::child_projects;
use pearls::landing::{get_projects, room};
use pearls::make::cal::cal_reply;
use pearls::make::project::find_items;
use pearls::plan::plan_in_zone;
use pearls::store::{
    children_names, migrate, AggregatedTaskRecord, Avail, Intent, ProjectRecord, StoreError,
    TaskRecord,
};
use pearls::time::{Duration, LocalTime, SystemTime};
use pearls::timeline::{make_notes, timeline_page, ProjectDates};
use pearls::timeline2::TimelineProject;
use pearls::workload::{
    in_window, make_deadlines, make_load, make_users, make_week, render_workload, workload_page,
    UserMap,
};

const HOUR: u64 = 3_600;
const DAY: i64 = 86_400;
// Monday 2020-06-15, 00:00:00 UTC
const MONDAY: i64 = 1_592_179_200;

fn at(secs: i64) -> SystemTime {
    SystemTime { millis: secs as u64 * 1000 }
}

fn local(secs: i64) -> LocalTime {
    LocalTime { secs, offset: 0 }
}

fn project(id: i64, name: &str, end: Option<i64>) -> ProjectRecord {
    ProjectRecord {
        id,
        name: String::from(name),
        username: String::from("owner"),
        start_time: at(0),
        end_time: end.map(at),
        provision: None,
        completed: None,
        is_meta: false,
        parent: None,
    }
}

fn task(id: i64, user: &str, project: &str, name: &str, start: i64, end: i64) -> TaskRecord {
    TaskRecord {
        id,
        username: String::from(user),
        start_time: at(start),
        end_time: at(end),
        project: String::from(project),
        task: String::from(name),
    }
}

fn count(text: &str, part: &str) -> usize {
    text.matches(part).count()
}

#[test]
fn users_get_short_names_in_the_order_in_which_they_come_up() {
    let mut umap = UserMap::new();
    assert_eq!(umap.alias("al"), "user-1");
    assert_eq!(umap.alias("bo"), "user-2");
    assert_eq!(umap.alias("al"), "user-1");
    assert_eq!(umap.alias("cy"), "user-3");
}

#[test]
fn a_work_load_shows_its_hours() {
    let projects = vec![project(1, "c/p", None)];
    let intents = vec![Intent {
        username: String::from("al"),
        project: String::from("c/p"),
        amount: Duration::from_secs(3 * HOUR),
        end_time: None,
    }];
    let avails = vec![Avail {
        username: String::from("al"),
        start_time: at(MONDAY),
        end_time: at(MONDAY + 50 * DAY),
        weekly: Duration::from_secs(20 * HOUR),
    }];
    let forecast = plan_in_zone(&projects, &intents, &avails, &vec![], at(MONDAY), 0);
    let load = &forecast.plan[0].1[0].1[0];
    let mut umap = UserMap::new();
    assert_eq!(
        make_load(load, &mut umap).as_string(),
        "<div class=\"load-wrapper user-1\" title=\"2020-06-15 --- 3\"><div class=\"project-name\">c/p</div>\n<div class=\"load-value\"><div class=\"load-hour\"></div>\n<div class=\"load-hour\"></div>\n<div class=\"load-hour\"></div></div></div>"
    );
    let week = make_week(&local(MONDAY), vec![load], &mut umap, make_deadlines(&projects, &local(MONDAY), &local(MONDAY + 7 * DAY)));
    let text = week.as_string();
    assert!(text.starts_with("<div class=\"week-load\"><h3 class=\"date\">2020-06-15</h3>\n<div class=\"deadlines empty\"></div>\n<div class=\"load-list\"><div class=\"load-wrapper user-1\""));
    assert_eq!(
        make_users(&forecast.plan, &mut umap).as_string(),
        "<div class=\"user-list\"><div class=\"user-1\">al</div></div>"
    );
}

#[test]
fn deadlines_are_shown_in_the_week_in_which_they_fall() {
    let projects = vec![
        project(1, "c/now", Some(MONDAY)),
        project(2, "c/later", Some(MONDAY + 7 * DAY)),
        project(3, "c/mid", Some(MONDAY + 3 * DAY + 5)),
        project(4, "c/never", None),
    ];
    assert_eq!(
        make_deadlines(&projects, &local(MONDAY), &local(MONDAY + 7 * DAY)).as_string(),
        "<div class=\"dealines\"><div class=\"project-name\" title=\"2020-06-15\">c/now</div>\n<div class=\"project-name\" title=\"2020-06-18\">c/mid</div></div>"
    );
    assert_eq!(
        make_deadlines(&projects, &local(MONDAY - 7 * DAY), &local(MONDAY)).as_string(),
        "<div class=\"deadlines empty\"></div>"
    );
    assert!(in_window(&at(MONDAY), &local(MONDAY), &local(MONDAY + 1)));
    assert!(!in_window(&at(MONDAY + 1), &local(MONDAY), &local(MONDAY + 1)));
    assert!(in_window(&SystemTime { millis: at(MONDAY).millis + 999 }, &local(MONDAY), &local(MONDAY + 1)));
}

#[test]
fn the_workload_runs_for_a_year_of_weeks() {
    let projects = vec![project(1, "c/p", Some(MONDAY + 10 * DAY))];
    let intents = vec![Intent {
        username: String::from("@al:m.org"),
        project: String::from("c/p"),
        amount: Duration::from_secs(30 * HOUR),
        end_time: None,
    }];
    let avails = vec![Avail {
        username: String::from("@al:m.org"),
        start_time: at(MONDAY),
        end_time: at(MONDAY + 56 * DAY),
        weekly: Duration::from_secs(20 * HOUR),
    }];
    // Wednesday afternoon: the first week starts at midnight of that day
    let now = at(MONDAY + 2 * DAY + 15 * HOUR as i64);
    let text = render_workload(&projects, &intents, &avails, &vec![], now, 0).as_string();
    assert!(text.starts_with("<div class=\"workload-block\"><div class=\"user-list\"><div class=\"user-1\">@al</div></div>\n<div class=\"months\"><div class=\"month-load-wrapper\"><h2 class=\"month-name\">June</h2>"));
    // 361 days from Wednesday 17 June 2020 15:00 is Sunday 13 June 2021: 52 weeks
    assert_eq!(count(&text, "class=\"week-load\""), 52);
    assert_eq!(count(&text, "class=\"month-load-wrapper\""), 13);
    assert_eq!(count(&text, "class=\"load-wrapper user-1\""), 2);
    assert_eq!(count(&text, "class=\"load-hour\""), 30);
    assert_eq!(count(&text, "class=\"dealines\""), 1);
    assert!(text.contains("<h3 class=\"date\">2020-06-17</h3>"));
    assert!(text.contains("<h3 class=\"date\">2020-06-22</h3>"));
    assert!(text.contains("title=\"2020-06-17 --- 12\""));
    assert!(text.contains("title=\"2020-06-22 --- 18\""));
    let page = workload_page("b{}", Some(render_workload(&projects, &intents, &avails, &vec![], now, 0)));
    assert!(page.starts_with("<!DOCTYPE html>\n<html><head><style type=\"text/css\">b{}</style></head>\n<body><div class=\"workload-block\">"));
    assert_eq!(
        workload_page("", None),
        "<!DOCTYPE html>\n<html><head><style type=\"text/css\"></style></head>\n<body><div>Error</div></body></html>"
    );
}

#[test]
fn a_day_shows_its_tasks() {
    let t = task(1, "@al:m.org", "c/p", "dev", MONDAY + 10 * HOUR as i64, MONDAY + 12 * HOUR as i64);
    assert_eq!(
        make_day(&local(MONDAY), &vec![&t], "in-month").as_string(),
        "<div class=\"day in-month\"><div class=\"weekday\">Monday 15</div>\n<div class=\"task-list\"><div class=\"task\"><div>@al(dev)</div>\n<div>2 hours</div></div></div></div>"
    );
    assert_eq!(month_and_year(&local(MONDAY)), "June 2020");
}

#[test]
fn the_calendar_of_a_project_has_its_months_weeks_and_days() {
    let recs = vec![
        task(1, "al", "c/p", "dev", MONDAY + 10 * HOUR as i64, MONDAY + 12 * HOUR as i64),
        task(2, "bo", "c/p", "ops", MONDAY + 40 * DAY + 10 * HOUR as i64, MONDAY + 40 * DAY + 11 * HOUR as i64),
    ];
    let text = cal_project(&recs, None, 0).as_string();
    assert!(text.starts_with("<div class=\"calendar\"><div class=\"month\"><h1>June</h1>"));
    assert_eq!(count(&text, "<h1>June</h1>"), 1);
    assert_eq!(count(&text, "<h1>July</h1>"), 1);
    assert_eq!(count(&text, "<div>al(dev)</div>"), 1);
    assert_eq!(count(&text, "<div>bo(ops)</div>"), 1);
    assert!(text.contains("<div class=\"day in-month\"><div class=\"weekday\">Monday 15</div>\n<div class=\"task-list\"><div class=\"task\"><div>al(dev)</div>"));
    assert!(text.contains("<div class=\"weekday\">Monday 1</div>"));
    let web = cal_project(&recs, Some("room/tabular/c/p"), 0).as_string();
    assert!(web.contains("<h1>June 2020</h1>"));
    assert!(web.contains("<div class=\"week start-day-8\">"));
    let first = (MONDAY + 10 * HOUR as i64) * 1000 - 1;
    let last = (MONDAY + 12 * HOUR as i64) * 1000;
    assert!(web.contains(&format!("<a href=\"/room/tabular/c/p/{}/{}\">csv</a>", first, last)));
    assert_eq!(
        cal_project(&vec![], None, 0).as_string(),
        cal_project(&vec![], None, 0).as_string()
    );
}

#[test]
fn the_page_of_a_calendar_has_a_summary() {
    let recs = vec![
        task(1, "al", "c/p", "dev", MONDAY + 10 * HOUR as i64, MONDAY + 12 * HOUR as i64),
        task(2, "bo", "c/q", "ops", MONDAY + 13 * HOUR as i64, MONDAY + 14 * HOUR as i64 + 1800),
        task(3, "bo", "c/p", "ops", MONDAY + 15 * HOUR as i64, MONDAY + 15 * HOUR as i64),
    ];
    let page = cal_page(&recs, 7, "x", None, 0);
    assert!(page.starts_with("<!DOCTYPE html>\n<html><head><style type=\"text/css\">x</style></head>\n<body><h1>c/p, c/q</h1>\n<div class=\"summary\"><div><span>Done: </span>\n<span>3 hours</span></div>\n<div><span>Avail: </span>\n<span>7 hours</span></div></div>\n<div class=\"calendar\">"));
    let mut info = project(1, "c/p", None);
    info.provision = Some(Duration::from_secs(10 * HOUR));
    let web = cal("room", "c/p", &Ok(info), &Ok(recs), "x", 0);
    assert!(web.contains("<span>10 hours</span></div>\n<a href=\"/room/tabular/c/p/"));
    assert_eq!(
        cal("room", "c/p", &Err(StoreError::Get), &Err(StoreError::Iter), "x", 0),
        "Store Error: Failed to iterate"
    );
    assert_eq!(
        cal_reply("bot.example", &Ok(String::from("abc"))),
        Some((
            String::from("can be seen at http://bot.example/cal/abc"),
            String::from("<span><a href=\"http://bot.example/cal/abc\">follow me</a></span>")
        ))
    );
    assert_eq!(
        cal_reply("bot.example", &Err(StoreError::LogRecord)),
        Some((String::from("Failed to log record"), String::new()))
    );
}

#[test]
fn the_csv_link_spans_all_the_events() {
    let recs = vec![
        task(1, "al", "c/p", "dev", 500, 600),
        task(2, "al", "c/p", "dev", 100, 200),
        task(3, "al", "c/p", "dev", 300, 900),
    ];
    assert_eq!(
        make_csv_link("base", &recs).as_string(),
        "<a href=\"/base/99999/900000\">csv</a>"
    );
    assert_eq!(
        make_csv_link("base", &Vec::<TaskRecord>::new()).as_string(),
        "<span style=\"display:none\"></span>"
    );
}

#[test]
fn the_page_of_a_room_lists_who_is_at_work() {
    let current = Ok(vec![
        task(1, "@al:m.org", "c/p", "dev", MONDAY, MONDAY + 3_600),
        task(2, "bo", "c/p", "ops", MONDAY - 10, MONDAY - 1),
    ]);
    let mut done = project(3, "c/done", Some(MONDAY));
    done.completed = Some(at(MONDAY));
    let projects = Ok(vec![project(1, "c/late", Some(MONDAY + 100)), done, project(2, "c/soon", Some(MONDAY + 10))]);
    let page = room("r0", at(MONDAY), Some((current, projects)));
    assert_eq!(
        page,
        "<!DOCTYPE html>\n<html><head><title>r0</title></head>\n<body><div class=\"content\"><h2>r0</h2>\n<div><span>got to</span>\n<a href=\"/r0/timeline\">timeline</a>\n<h3>active users</h3></div>\n<div class=\"record\">@al is performing dev on c/p, they will be done in 1 hour</div>\n<h3>active projects</h3>\n<div><span>→</span>\n<a href=\"/r0/calendar/c/soon\">c/soon</a></div>\n<div><span>→</span>\n<a href=\"/r0/calendar/c/late\">c/late</a></div></div></body></html>"
    );
    let quiet = room("r0", at(MONDAY), Some((Ok(vec![]), Err(StoreError::Iter))));
    assert!(quiet.contains("<h3>active users</h3></div>\nNothing is happening right now.</div></body>"));
    let closed = room("r0", at(MONDAY), None);
    assert!(closed.ends_with("<h3>active users</h3></div></div></body></html>"));
    let names: Vec<String> = get_projects(vec![project(1, "b", None), project(2, "a", Some(5))])
        .into_iter()
        .map(|p| p.name)
        .collect();
    assert_eq!(names, vec!["a", "b"]);
}

#[test]
fn the_timeline_shows_every_project() {
    let mut p = project(1, "c/p", Some(MONDAY));
    p.provision = Some(Duration::from_secs(10 * HOUR));
    let note = pearls::store::NoteRecord {
        id: 1,
        username: String::from("@al:m.org"),
        project: String::from("c/p"),
        created_at: at(MONDAY),
        content: String::from("hello"),
    };
    let projects = Ok(vec![(p, Duration::from_secs(2 * HOUR), vec![note])]);
    let dates = vec![ProjectDates {
        deadline: String::from("15 June 2020"),
        completed: String::new(),
        notes: vec![String::from("2020-06-15")],
    }];
    let page = timeline_page(&projects, &dates, "/r0/", "x", &at(MONDAY + 1));
    assert!(page.starts_with("<!DOCTYPE html>\n<html><head><style type=\"text/css\">x</style></head>\n<body><h1>Timeline</h1>\n<div class=\"projects\"><div class=\"project-wrapper\"><div class=\"project-gauge small\">"));
    assert!(page.contains("<h2><a href=\"/r0/calendar/c/p\">c/p</a></h2>"));
    assert!(page.contains("<div class=\"info-wrapper not-in-time\"><div class=\"label\">Deadline:</div>\n<div class=\"value\">15 June 2020</div></div>"));
    assert!(page.contains("<div class=\"label\">Remaining:</div>\n<div class=\"value\"><span>8h</span></div>"));
    assert!(page.contains("<div class=\"label\">Provisioned:</div>\n<div class=\"value\">10h</div>"));
    assert!(page.contains("<details class=\"notes\"><summary>notes</summary>\n<div><div class=\"note\"><div class=\"note-date\">2020-06-15</div>\n<div class=\"note-user\">@al</div>\n<p class=\"note-content\">hello</p></div></div></details>"));
    assert_eq!(
        timeline_page(&Err(StoreError::Iter), &vec![], "/r0/", "x", &at(0)),
        "<!DOCTYPE html>\n<html><head><style type=\"text/css\">x</style></head>\n<body><div>error: no projects found</div></body></html>"
    );
    assert_eq!(make_notes(&vec![], &vec![]).as_string(), "<span style=\"display:none\"></span>");
}

#[test]
fn the_bot_tells_commands_from_talk() {
    assert_eq!(classify("r", "al", "!ping", "2", "1"), Incoming::Command);
    assert_eq!(classify("r", "al", "!ping", "2", "2"), Incoming::Repeated);
    assert_eq!(classify("r", "al", "hello", "2", "1"), Incoming::Chat(String::from("[r] al> hello")));
    assert_eq!(classify("r", "al", "", "2", "1"), Incoming::Chat(String::from("[r] al> ")));
    assert!(is_for_handlers("m.text", "al", "bot"));
    assert!(!is_for_handlers("m.text", "bot", "bot"));
    assert!(!is_for_handlers("m.image", "al", "bot"));
    assert_eq!(outgoing(None), Outgoing::Nothing);
    assert_eq!(outgoing(Some((String::from("a"), String::new()))), Outgoing::Text(String::from("a")));
    assert_eq!(
        outgoing(Some((String::from("a"), String::from("<b>a</b>")))),
        Outgoing::Html(String::from("a"), String::from("<b>a</b>"))
    );
    assert_eq!(kind_of_message(MessageType::RoomNotice), "m.notice");
    assert_eq!(kind_of_message(MessageType::TextMessage), "m.text");
    assert_eq!(kind_of_message(MessageType::Image), "m.image");
    assert_eq!(handle_recvs(&BotEvent::Token(String::from("bot"))), BotAction::FirstSync);
    assert_eq!(handle_recvs(&BotEvent::Sync), BotAction::NextSync);
    assert_eq!(handle_recvs(&BotEvent::SyncError), BotAction::NextSync);
    assert_eq!(handle_recvs(&BotEvent::ShutDown), BotAction::Stop);
    assert_eq!(handle_recvs(&BotEvent::LoginError), BotAction::Panic);
    assert_eq!(handle_recvs(&BotEvent::UpdateRooms), BotAction::HandleRooms);
    assert_eq!(handle_recvs(&BotEvent::RoomMessages), BotAction::HandleMessages);
    assert_eq!(handle_recvs(&BotEvent::Other), BotAction::Nothing);
    assert!(handle_join(true).contains("Hello there! I'm ready to take commands, \n"));
    assert!(handle_join(false).contains("Sorry there! Something went wrong when\n"));
}

#[test]
fn children_of_a_meta_project_are_found_by_their_parent() {
    let mut a = project(1, "c/a", None);
    a.parent = Some(9);
    let mut b = project(2, "c/b", None);
    b.parent = Some(8);
    let mut c = project(3, "c/c", None);
    c.parent = Some(9);
    let meta = project(9, "c/all", None);
    assert_eq!(children_names(&meta, &vec![a.clone(), b.clone(), c.clone(), meta.clone()]), vec!["c/a", "c/c"]);
    let none = Duration { millis: 0 };
    let kept: Vec<String> = child_projects(
        9,
        vec![
            TimelineProject::new(a, none, vec![]),
            TimelineProject::new(b, none, vec![]),
            TimelineProject::new(c, none, vec![]),
        ],
    )
    .into_iter()
    .map(|tp| tp.record.name)
    .collect();
    assert_eq!(kept, vec!["c/a", "c/c"]);
    assert_eq!(migrate(0), Some(1));
    assert_eq!(migrate(3), Some(4));
    assert_eq!(migrate(4), None);
    assert_eq!(migrate(-1), None);
}

#[test]
fn work_is_found_where_it_starts_or_ends() {
    let work = |start: u64, end: u64| AggregatedTaskRecord {
        project: String::from("c/p"),
        username: String::from("al"),
        task: format!("{}-{}", start, end),
        start_time: SystemTime { millis: start },
        end_time: SystemTime { millis: end },
        duration: Duration { millis: end - start },
    };
    let recs = vec![work(100, 200), work(50, 150), work(150, 500), work(10, 500), work(90, 300)];
    let found: Vec<&str> = find_items(&recs, SystemTime { millis: 90 }, SystemTime { millis: 300 })
        .iter()
        .map(|r| r.task.as_str())
        .collect();
    assert_eq!(found, vec!["100-200", "50-150", "150-500"]);
}

#[test]
fn a_workload_that_is_cut_short_at_the_horizon_says_so() {
    let projects = vec![project(1, "c/p", None)];
    let intents = vec![Intent {
        username: String::from("@al:m.org"),
        project: String::from("c/p"),
        amount: Duration::from_secs(30 * HOUR),
        end_time: None,
    }];
    let now = at(MONDAY);
    let text = render_workload(&projects, &intents, &vec![], &vec![], now, 0).as_string();
    assert!(text.starts_with("<div class=\"workload-block truncated\"><div class=\"user-list\">"));
    assert_eq!(count(&text, "class=\"load-hour\""), 0);
    assert!(plan_in_zone(&projects, &intents, &vec![], &vec![], now, 0).truncated);
}
