use pearls::make::common::{
    check_meta, conclude, get_candidates, get_project_name_parts, select_project, OnFailure,
    Replies, Step,
};
use pearls::make::digest::{make_notes_html, make_notes_string};
use pearls::make::{
    avail, complete, deadline, digest, done, help, intent, list, meta, more, new, note, parent,
    parse_error, provision, since, start, stop, switch,
};
use pearls::notif::notify;
use pearls::parser_ext::ParseCommandError;
use pearls::store::{
    AggregatedTaskRecord, Name, NoteRecord, ProjectRecord, Statement, StoreError, StoreResult,
    TaskRecord, Value,
};
use pearls::time::{Duration, SystemTime};

fn project(id: i64, name: &str, owner: &str) -> ProjectRecord {
    ProjectRecord {
        id,
        name: String::from(name),
        username: String::from(owner),
        start_time: SystemTime { millis: 0 },
        end_time: None,
        provision: None,
        completed: None,
        is_meta: false,
        parent: None,
    }
}

fn task(id: i64, user: &str, project: &str, name: &str, start: u64, end: u64) -> TaskRecord {
    TaskRecord {
        id,
        username: String::from(user),
        start_time: SystemTime { millis: start },
        end_time: SystemTime { millis: end },
        project: String::from(project),
        task: String::from(name),
    }
}

fn rows() -> StoreResult<Vec<ProjectRecord>> {
    Ok(vec![project(1, "acme/site", "al"), project(2, "acme/shop", "al"), project(3, "other/site", "bo")])
}

fn missing() -> StoreResult<ProjectRecord> {
    Err(StoreError::Get)
}

fn text_of(step: &Step) -> String {
    match step {
        Step::Done(Some((text, _))) => text.clone(),
        _ => panic!("the command should have answered at once"),
    }
}

fn written(step: Step) -> (Vec<Statement>, Replies) {
    match step {
        Step::Write { statements, then } => (statements, then),
        Step::Done(_) => panic!("the command should have written"),
    }
}

fn params(st: &Statement) -> Vec<(String, String)> {
    st.params
        .iter()
        .map(|(k, v)| {
            (
                String::from(*k),
                match v {
                    Value::Text(s) => s.clone(),
                    Value::Int(n) => format!("{}", n),
                    Value::Flag(b) => format!("{}", b),
                },
            )
        })
        .collect()
}

fn pairs(list: &[(&str, &str)]) -> Vec<(String, String)> {
    list.iter().map(|(k, v)| (String::from(*k), String::from(*v))).collect()
}

const SORRY: &str = "Sorry, Err'd while saving to DB";

#[test]
fn avail_registers_the_window() {
    let (statements, then) = written(avail(
        String::from("al"),
        SystemTime { millis: 10 },
        SystemTime { millis: 20 },
        Duration { millis: 30 },
    ));
    assert_eq!(statements.len(), 1);
    assert_eq!(statements[0].name, Name::InsertAvail);
    assert_eq!(
        params(&statements[0]),
        pairs(&[(":username", "al"), (":start", "10"), (":end", "20"), (":weekly", "30")])
    );
    assert_eq!(conclude(then, &Ok(1)), Some((String::from("Registered"), String::new())));
    let (_, then) = written(avail(
        String::from("al"),
        SystemTime { millis: 10 },
        SystemTime { millis: 20 },
        Duration { millis: 30 },
    ));
    assert_eq!(
        conclude(then, &Err(StoreError::LogRecord)),
        Some((String::from(SORRY), String::from(SORRY)))
    );
}

#[test]
fn new_opens_a_project() {
    let (statements, then) =
        written(new(String::from("al"), String::from("acme/new"), SystemTime { millis: 5 }));
    assert_eq!(statements[0].name, Name::InsertProject);
    assert_eq!(
        params(&statements[0]),
        pairs(&[(":username", "al"), (":name", "acme/new"), (":start", "5")])
    );
    assert_eq!(conclude(then, &Ok(1)), Some((String::from("Yeah! New Project!"), String::new())));
}

#[test]
fn a_project_that_is_not_there_brings_candidates() {
    let step = complete(
        String::from("acme/sit"),
        SystemTime { millis: 5 },
        "2020-01-01",
        missing(),
        &rows(),
    );
    match step {
        Step::Done(Some((text, html))) => {
            assert_eq!(
                text,
                "Project \"acme/sit\" does not exist, similar project names are:\n\n  - acme/site\n  - acme/shop\n  - other/site\n---"
            );
            assert_eq!(
                html,
                "<div><h4>Project \"acme/sit\" does not exist, similar project names are:</h4>\n<ul><li>acme/site</li>\n<li>acme/shop</li>\n<li>other/site</li></ul>\n<p>---</p></div>"
            );
        }
        _ => panic!("there is no such project"),
    }
}

#[test]
fn candidates_are_ranked_by_their_distance() {
    let c = get_candidates("acme/shop", &rows());
    assert_eq!(c.take(2), vec!["acme/shop", "acme/site"]);
    assert_eq!(c.take(8), vec!["acme/shop", "acme/site", "other/site"]);
    assert_eq!(c.take(0), Vec::<String>::new());
    // a name without a slash, or a store without an answer, brings nothing
    let none = get_candidates("acme", &rows());
    assert_eq!(none.take(8), Vec::<String>::new());
    assert_eq!(
        none.as_text("x"),
        "This project does not exist, similar project names are:\n\nx"
    );
    let unknown = get_candidates("acme/shop", &Err(StoreError::Iter));
    assert_eq!(unknown.take(8), Vec::<String>::new());
    // a change in the client weighs more than one in the project
    let close = get_candidates(
        "ab/cd",
        &Ok(vec![project(1, "xb/cd", "u"), project(2, "ab/xx", "u"), project(3, "nothing", "u")]),
    );
    assert_eq!(close.take(8), vec!["ab/xx", "xb/cd"]);
}

#[test]
fn project_names_have_a_client_and_a_project() {
    assert_eq!(
        get_project_name_parts("acme/site"),
        Some((String::from("acme"), String::from("site")))
    );
    assert_eq!(get_project_name_parts("a/b/c"), Some((String::from("a"), String::from("b"))));
    assert_eq!(get_project_name_parts("/b"), Some((String::new(), String::from("b"))));
    assert_eq!(get_project_name_parts("a/"), Some((String::from("a"), String::new())));
    assert_eq!(get_project_name_parts("ab"), None);
    assert_eq!(get_project_name_parts(""), None);
}

#[test]
fn select_project_hands_the_project_on() {
    let found = select_project(Ok(project(7, "acme/site", "al")), &rows(), "acme/site");
    assert_eq!(found.ok().map(|p| p.id), Some(7));
    assert!(select_project(missing(), &rows(), "acme/site").is_err());
}

#[test]
fn complete_and_deadline_say_the_date() {
    let (statements, then) = written(complete(
        String::from("acme/site"),
        SystemTime { millis: 5 },
        "2020-01-01",
        Ok(project(1, "acme/site", "al")),
        &rows(),
    ));
    assert_eq!(statements[0].name, Name::UpdateCompleted);
    assert_eq!(params(&statements[0]), pairs(&[(":name", "acme/site"), (":completed", "5")]));
    assert_eq!(
        conclude(then, &Ok(1)),
        Some((String::from("Updated completion date to 2020-01-01"), String::new()))
    );
    let (statements, then) = written(deadline(
        String::from("acme/site"),
        SystemTime { millis: 6 },
        "2020-02-02",
        Ok(project(1, "acme/site", "al")),
        &rows(),
    ));
    assert_eq!(statements[0].name, Name::UpdateDeadline);
    assert_eq!(params(&statements[0]), pairs(&[(":name", "acme/site"), (":end", "6")]));
    assert_eq!(
        conclude(then, &Ok(1)),
        Some((String::from("Updated deadline to 2020-02-02"), String::new()))
    );
    let refused =
        deadline(String::from("nope"), SystemTime { millis: 6 }, "d", missing(), &rows());
    assert!(text_of(&refused).ends_with("\nOr if it's a new project, you must !new it first."));
}

#[test]
fn provision_and_note_write_to_the_project() {
    let (statements, then) = written(provision(
        String::from("acme/site"),
        Duration { millis: 7 },
        Ok(project(1, "acme/site", "al")),
        &rows(),
    ));
    assert_eq!(statements[0].name, Name::UpdateProvision);
    assert_eq!(params(&statements[0]), pairs(&[(":name", "acme/site"), (":provision", "7")]));
    assert_eq!(conclude(then, &Ok(1)), Some((String::from("Updated provision"), String::new())));
    let (statements, then) = written(note(
        String::from("al"),
        String::from("acme/site"),
        String::from("call back"),
        SystemTime { millis: 9 },
        Ok(project(1, "acme/site", "al")),
        &rows(),
    ));
    assert_eq!(statements[0].name, Name::InsertNote);
    assert_eq!(
        params(&statements[0]),
        pairs(&[
            (":project", "acme/site"),
            (":username", "al"),
            (":created_at", "9"),
            (":content", "call back")
        ])
    );
    assert_eq!(conclude(then, &Ok(1)), Some((String::from("Noted."), String::new())));
}

#[test]
fn meta_is_for_the_owner_of_an_ordinary_project() {
    let mut already = project(1, "acme/site", "al");
    already.is_meta = true;
    let step = meta(String::from("al"), String::from("acme/site"), Ok(already), &rows());
    assert_eq!(text_of(&step), "This project is already a meta project.");
    let step = meta(String::from("bo"), String::from("acme/site"), Ok(project(1, "acme/site", "al")), &rows());
    assert_eq!(
        text_of(&step),
        "This project has been created by al, only they can edit this bit."
    );
    let (statements, then) = written(meta(
        String::from("al"),
        String::from("acme/site"),
        Ok(project(1, "acme/site", "al")),
        &rows(),
    ));
    assert_eq!(statements[0].name, Name::UpdateMeta);
    assert_eq!(params(&statements[0]), pairs(&[(":name", "acme/site"), (":is_meta", "true")]));
    assert_eq!(conclude(then, &Ok(1)), Some((String::from("Done"), String::new())));
    let (_, then) = written(meta(
        String::from("al"),
        String::from("acme/site"),
        Ok(project(1, "acme/site", "al")),
        &rows(),
    ));
    assert_eq!(
        conclude(then, &Err(StoreError::LogRecord)),
        Some((String::from("failed to save this into DB."), String::new()))
    );
}

#[test]
fn parent_needs_a_meta_parent_and_an_ordinary_child_of_ones_own() {
    let child = || project(1, "acme/site", "al");
    let mut meta_parent = project(9, "acme/all", "al");
    meta_parent.is_meta = true;
    let args = |c: StoreResult<ProjectRecord>, p: StoreResult<ProjectRecord>, user: &str| {
        parent(String::from(user), String::from("acme/site"), String::from("acme/all"), c, p, &rows())
    };
    assert_eq!(
        text_of(&args(Ok(child()), Ok(project(9, "acme/all", "al")), "al")),
        "acme/all is **not** a meta project, it can't have child projects."
    );
    let mut meta_child = child();
    meta_child.is_meta = true;
    assert_eq!(
        text_of(&args(Ok(meta_child), Ok(meta_parent.clone()), "al")),
        "acme/site **is** a meta project, it can't have a parent project."
    );
    assert_eq!(
        text_of(&args(Ok(child()), Ok(meta_parent.clone()), "bo")),
        "acme/site has been created by al, only they can edit this bit."
    );
    assert!(text_of(&args(missing(), Ok(meta_parent.clone()), "al")).ends_with("Child project not found"));
    assert!(text_of(&args(Ok(child()), missing(), "al")).ends_with("Parent project not found"));
    let both = text_of(&args(missing(), missing(), "al"));
    assert!(both.starts_with("Child canditates:\nProject \"acme/site\" does not exist"));
    assert!(both.contains("\n\nParent candidates:\nProject \"acme/all\" does not exist"));
    let (statements, then) = written(args(Ok(child()), Ok(meta_parent), "al"));
    assert_eq!(statements[0].name, Name::UpdateParent);
    assert_eq!(params(&statements[0]), pairs(&[(":name", "acme/site"), (":parent", "9")]));
    assert_eq!(conclude(then, &Ok(1)), Some((String::from("Done"), String::new())));
}

#[test]
fn a_meta_project_takes_no_work_itself() {
    let mut all = project(9, "acme/all", "al");
    all.is_meta = true;
    let mut site = project(1, "acme/site", "al");
    site.parent = Some(9);
    let mut shop = project(2, "acme/shop", "al");
    shop.parent = Some(9);
    let mut elsewhere = project(3, "other/site", "bo");
    elsewhere.parent = Some(8);
    let store = Ok(vec![site, elsewhere, shop, project(4, "free/one", "al")]);
    assert_eq!(
        check_meta(&all, &store),
        Some((
            String::from(
                "This is a meta project, you must assign work to its child projects.\n→ acme/site\n→ acme/shop"
            ),
            String::new()
        ))
    );
    assert_eq!(check_meta(&all, &Err(StoreError::Iter)), None);
    assert_eq!(check_meta(&project(1, "acme/site", "al"), &store), None);
    let step = intent(
        String::from("al"),
        String::from("acme/all"),
        Duration { millis: 1 },
        Ok(all),
        &store,
    );
    assert!(text_of(&step).starts_with("This is a meta project"));
}

#[test]
fn intent_records_the_amount() {
    let (statements, then) = written(intent(
        String::from("al"),
        String::from("acme/site"),
        Duration { millis: 3_600_000 },
        Ok(project(1, "acme/site", "al")),
        &rows(),
    ));
    assert_eq!(statements[0].name, Name::InsertIntent);
    assert_eq!(
        params(&statements[0]),
        pairs(&[(":username", "al"), (":project", "acme/site"), (":amount", "3600000")])
    );
    assert_eq!(conclude(then, &Ok(1)), Some((String::from("You won't regret it"), String::new())));
    let (_, then) = written(intent(
        String::from("al"),
        String::from("acme/site"),
        Duration { millis: 3_600_000 },
        Ok(project(1, "acme/site", "al")),
        &rows(),
    ));
    assert_eq!(
        conclude(then, &Err(StoreError::LogRecord)),
        Some((String::from("Error: Failed to log record"), String::new()))
    );
    let refused = intent(String::from("al"), String::from("no/pe"), Duration { millis: 1 }, missing(), &rows());
    assert!(text_of(&refused).ends_with("\nOr if it's a new project, you can !new it first."));
}

#[test]
fn start_records_a_task_from_now() {
    let pendings = vec![task(1, "bo", "acme/site", "dev", 0, 100)];
    let (statements, then) = written(start(
        String::from("al"),
        Duration { millis: 500 },
        String::from("acme/site"),
        String::from("dev"),
        SystemTime { millis: 1_000 },
        &pendings,
        Ok(project(1, "acme/site", "al")),
        &rows(),
    ));
    assert_eq!(statements[0].name, Name::InsertDo);
    assert_eq!(
        params(&statements[0]),
        pairs(&[
            (":username", "al"),
            (":start", "1000"),
            (":end", "1500"),
            (":project", "acme/site"),
            (":task", "dev")
        ])
    );
    assert_eq!(conclude(then, &Ok(1)), Some((String::from("doing OK"), String::new())));
    let busy = start(
        String::from("bo"),
        Duration { millis: 500 },
        String::from("acme/site"),
        String::from("dev"),
        SystemTime { millis: 1_000 },
        &pendings,
        Ok(project(1, "acme/site", "al")),
        &rows(),
    );
    assert_eq!(
        text_of(&busy),
        "You are already doing dev, you should stop it first with !stop or use !switch"
    );
}

#[test]
fn done_starts_no_earlier_than_the_last_task_ended() {
    let args = |latest: StoreResult<Vec<TaskRecord>>| {
        done(
            String::from("al"),
            Duration { millis: 3_600_000 },
            String::from("acme/site"),
            String::from("dev"),
            SystemTime { millis: 10_000_000 },
            &vec![],
            Ok(project(1, "acme/site", "al")),
            &rows(),
            &latest,
        )
    };
    let (statements, then) = written(args(Ok(vec![])));
    assert_eq!(params(&statements[0])[1], (String::from(":start"), String::from("6400000")));
    assert_eq!(params(&statements[0])[2], (String::from(":end"), String::from("10000000")));
    assert_eq!(conclude(then, &Ok(1)), Some((String::from("Well recorded."), String::new())));
    let (statements, _) = written(args(Err(StoreError::Iter)));
    assert_eq!(params(&statements[0])[1], (String::from(":start"), String::from("6400000")));
    let (statements, _) = written(args(Ok(vec![task(1, "al", "c/p", "t", 0, 6_000_000)])));
    assert_eq!(params(&statements[0])[1], (String::from(":start"), String::from("6400000")));
    let (statements, then) = written(args(Ok(vec![task(1, "al", "c/p", "t", 0, 8_200_000)])));
    assert_eq!(params(&statements[0])[1], (String::from(":start"), String::from("8200000")));
    assert_eq!(
        conclude(then, &Ok(1)),
        Some((
            String::from(
                "Recorded, but adjusted to the end of your last task. Resulting in just 30 minutes"
            ),
            String::new()
        ))
    );
    let busy = done(
        String::from("al"),
        Duration { millis: 1 },
        String::from("acme/site"),
        String::from("dev"),
        SystemTime { millis: 10 },
        &vec![task(1, "al", "c/p", "design", 0, 100)],
        Ok(project(1, "acme/site", "al")),
        &rows(),
        &Ok(vec![]),
    );
    assert_eq!(text_of(&busy), "You are already doing design, you're covered, or tricky :)");
}

#[test]
fn stop_more_and_switch_end_the_task_under_way() {
    let pendings = vec![task(7, "al", "acme/site", "dev", 0, 9_000)];
    let (statements, then) = written(stop(SystemTime { millis: 5_000 }, &pendings));
    assert_eq!(statements[0].name, Name::UpdateTaskEnd);
    assert_eq!(params(&statements[0]), pairs(&[(":id", "7"), (":end", "5000")]));
    assert_eq!(
        conclude(then, &Ok(1)),
        Some((
            String::from("Done, you can !do a new one"),
            String::from("Done, you can <strong>!do</strong> a new one")
        ))
    );
    let (_, then) = written(stop(SystemTime { millis: 5_000 }, &pendings));
    assert_eq!(conclude(then, &Err(StoreError::LogRecord)), None);
    assert_eq!(text_of(&stop(SystemTime { millis: 5_000 }, &vec![])), "Ther's nothing to !stop for you");

    let (statements, then) = written(more(
        String::from("al"),
        Duration { millis: 1_000 },
        SystemTime { millis: 5_000 },
        &pendings,
    ));
    assert_eq!(statements.len(), 2);
    assert_eq!(params(&statements[0]), pairs(&[(":id", "7"), (":end", "5000")]));
    assert_eq!(
        params(&statements[1]),
        pairs(&[
            (":username", "al"),
            (":start", "5000"),
            (":end", "6000"),
            (":project", "acme/site"),
            (":task", "dev")
        ])
    );
    assert_eq!(conclude(then, &Ok(1)), Some((String::from("Keep up the good work!"), String::new())));
    assert_eq!(
        text_of(&more(String::from("al"), Duration { millis: 1 }, SystemTime { millis: 1 }, &vec![])),
        "There's nothing to !more for you, sorry."
    );

    let (statements, then) = written(switch(
        String::from("al"),
        String::from("acme/shop"),
        String::from("design"),
        SystemTime { millis: 5_000 },
        &pendings,
        Ok(project(2, "acme/shop", "al")),
        &rows(),
    ));
    assert_eq!(params(&statements[0]), pairs(&[(":id", "7"), (":end", "5000")]));
    assert_eq!(
        params(&statements[1]),
        pairs(&[
            (":username", "al"),
            (":start", "5000"),
            (":end", "9000"),
            (":project", "acme/shop"),
            (":task", "design")
        ])
    );
    assert_eq!(conclude(then, &Ok(1)), Some((String::from("Good designing!"), String::new())));
    match switch(
        String::from("al"),
        String::from("acme/shop"),
        String::from("design"),
        SystemTime { millis: 5_000 },
        &vec![],
        Ok(project(2, "acme/shop", "al")),
        &rows(),
    ) {
        Step::Done(Some((text, html))) => {
            assert_eq!(text, "There's nothing to !switch from, you might want to !do.");
            assert_eq!(
                html,
                "There's nothing to <strong>!switch</strong> from, you might want to <strong>!do<strong>."
            );
        }
        _ => panic!("there is nothing to switch from"),
    }
}

#[test]
fn list_says_who_is_doing_what() {
    let now = SystemTime { millis: 1_000_000 };
    let current = Ok(vec![
        task(1, "@al:matrix.org", "acme/site", "dev", 0, 1_000_000 + 90 * 60_000),
        task(2, "bo", "acme/shop", "design", 0, 999_999),
    ]);
    assert_eq!(
        list(now, &current),
        Some((
            String::from(
                "@al is deving on acme/site, they will be done in 1 hour and 30 minutes\nbo is designing on acme/shop, they will be done in second time provided was later than self"
            ),
            String::new()
        ))
    );
    assert_eq!(list(now, &Ok(vec![])), Some((String::from("Time to !do something."), String::new())));
    assert_eq!(list(now, &Err(StoreError::Iter)), None);
}

fn work(user: &str, project: &str, name: &str, millis: u64) -> AggregatedTaskRecord {
    AggregatedTaskRecord {
        project: String::from(project),
        username: String::from(user),
        task: String::from(name),
        start_time: SystemTime { millis: 0 },
        end_time: SystemTime { millis },
        duration: Duration { millis },
    }
}

#[test]
fn since_lists_the_work() {
    let results = Ok(vec![work("al", "acme/site", "dev", 3_600_000), work("al", "acme/shop", "ops", 60_000)]);
    assert_eq!(
        since(&results),
        Some((
            String::from("acme/site\tdev\t1 hour\nacme/shop\tops\t1 minute"),
            String::from(
                "<table><tr><td>acme/site</td>\n<td>dev</td>\n<td>1 hour</td></tr>\n<tr><td>acme/shop</td>\n<td>ops</td>\n<td>1 minute</td></tr></table>"
            )
        ))
    );
    assert_eq!(since(&Err(StoreError::Iter)), None);
}

#[test]
fn digest_sums_the_project_up() {
    let mut p = project(1, "acme/site", "al");
    p.provision = Some(Duration { millis: 10 * 3_600_000 });
    let recs = Ok(vec![
        work("@al:m.org", "acme/site", "dev", 2 * 3_600_000),
        work("bo", "acme/site", "ops", 90 * 60_000),
    ]);
    let notes = vec![NoteRecord {
        id: 1,
        username: String::from("@al:m.org"),
        project: String::from("acme/site"),
        created_at: SystemTime { millis: 0 },
        content: String::from("remember"),
    }];
    let dates = vec![String::from("2020-01-01")];
    let reply = digest(
        String::from("acme/site"),
        Ok(p.clone()),
        &rows(),
        &recs,
        &Ok(p),
        &notes,
        &dates,
        "http://bot",
        "room",
    );
    let (text, html) = reply.unwrap();
    assert_eq!(
        text,
        "acme/site\n10 hours available, 3 hours done\n\n\n                    @al (2020-01-01)\n                    remember\n                    \n@al\tdev\t2 hours\nbo\tops\t1 hour and 30 minutes\ncalendar: http://bot/room/calendar/acme/site"
    );
    assert_eq!(
        html,
        "<div><h2>acme/site</h2>\n<div><div><code>available: 10 hours</code></div>\n<div><code>done: 3 hours</code></div></div>\n<details><div><div><code>↪ @al (2020-01-01)</code>\n<p>remember</p></div></div></details>\n<table><tr><td>@al</td>\n<td>dev</td>\n<td>2 hours</td></tr>\n<tr><td>bo</td>\n<td>ops</td>\n<td>1 hour and 30 minutes</td></tr></table>\n<div><a href=\"http://bot/room/calendar/acme/site\">Calendar Link </a></div></div>"
    );
    let bare = digest(
        String::from("acme/site"),
        Ok(project(1, "acme/site", "al")),
        &rows(),
        &Ok(vec![]),
        &Err(StoreError::Get),
        &vec![],
        &vec![],
        "b",
        "r",
    );
    let (text, html) = bare.unwrap();
    assert_eq!(text, "acme/site\n0 done\n\n\ncalendar: b/r/calendar/acme/site");
    assert_eq!(
        html,
        "<div><h2>acme/site</h2>\n<code>done: 0</code>\n<span style=\"display:none\"></span>\n<table></table>\n<div><a href=\"b/r/calendar/acme/site\">Calendar Link </a></div></div>"
    );
    let nothing = digest(
        String::from("acme/site"),
        Ok(project(1, "acme/site", "al")),
        &rows(),
        &Err(StoreError::Iter),
        &Err(StoreError::Get),
        &vec![],
        &vec![],
        "b",
        "r",
    );
    assert_eq!(nothing, None);
    assert_eq!(make_notes_string(&vec![], &vec![]), "");
    assert_eq!(make_notes_html(&vec![], &vec![]).as_string(), "<span style=\"display:none\"></span>");
}

#[test]
fn help_names_every_command() {
    let (text, html) = help("bot.example", "room").unwrap();
    assert!(text.starts_with("\n        !ping\n            check if the bot's still alive\n"));
    assert!(text.contains("Date must be formated as YYYY-MM-DD"));
    assert!(text.contains("Timeline is visible at http://bot.example/room/timeline\n"));
    assert!(text.ends_with("Workload is visible at http://bot.example/room/load\n        "));
    assert!(html.starts_with("<div><h4>!ping</h4>\n<p>check if the bot's still alive</p>\n<h4><span>!new </span>\n<em>project-name</em></h4>"));
    assert!(html.ends_with(
        "<div><a href=\"bot.example/room/timeline\n        \">TIMELINE</a></div>\n<div><a href=\"bot.example/room/load\n        \">WORLOAD</a></div></div>"
    ));
    for name in [
        "!ping", "!new", "!deadline", "!provision", "!complete", "!note", "!meta", "!parent", "!do",
        "!done", "!switch", "!stop", "!more", "!ls", "!digest", "!since", "!avail", "!intent",
    ] {
        assert!(text.contains(name), "{} is missing in the text", name);
        assert!(html.contains(name), "{} is missing in the html", name);
    }
}

#[test]
fn parse_errors_are_said_with_an_oops() {
    assert_eq!(
        parse_error(&ParseCommandError::NotFound),
        Some((
            String::from("Oops! Command does not exists"),
            String::from("<div>Oops! Command does not exists</div>")
        ))
    );
}

#[test]
fn conclude_picks_the_reply_that_fits() {
    let replies = || Replies {
        written: Some((String::from("ok"), String::new())),
        failed: OnFailure::Say(Some((String::from("no"), String::from("<b>no</b>")))),
    };
    assert_eq!(conclude(replies(), &Ok(3)), Some((String::from("ok"), String::new())));
    assert_eq!(
        conclude(replies(), &Err(StoreError::Lock)),
        Some((String::from("no"), String::from("<b>no</b>")))
    );
    let report = Replies { written: None, failed: OnFailure::Report };
    assert_eq!(
        conclude(report, &Err(StoreError::Open(String::from("x")))),
        Some((String::from("Error: Failed to open connection to x"), String::new()))
    );
}

#[test]
fn notify_tells_how_long_the_task_still_takes() {
    let (statements, then) = written(notify(
        7,
        SystemTime { millis: 1_000_000 + 10 * 60_000 },
        "al",
        SystemTime { millis: 1_000_000 },
    ));
    assert_eq!(statements[0].name, Name::InsertNotification);
    assert_eq!(params(&statements[0]), pairs(&[(":tid", "7"), (":end", "1600000")]));
    assert_eq!(
        conclude(then, &Ok(1)),
        Some((
            String::from(
                "al: Your current task will end in 10 minutes\n        You can !more <duration> to continue"
            ),
            String::new()
        ))
    );
    let (_, then) = written(notify(
        7,
        SystemTime { millis: 5 },
        "al",
        SystemTime { millis: 1_000_000 },
    ));
    let (text, _) = conclude(then, &Err(StoreError::LogRecord)).unwrap();
    assert!(text.starts_with("al: Your current task will end in 0 seconds\n"));
    assert!(text.ends_with("it might come back again, sorry for the inconvenience"));
}

#[test]
fn done_reaches_no_further_back_than_the_epoch() {
    let sixty_years = Duration { millis: 60 * 31_557_600_000 };
    let now = SystemTime { millis: 10_000_000 };
    let args = |latest: StoreResult<Vec<TaskRecord>>| {
        done(
            String::from("al"),
            sixty_years,
            String::from("acme/site"),
            String::from("dev"),
            now,
            &vec![],
            Ok(project(1, "acme/site", "al")),
            &rows(),
            &latest,
        )
    };
    let (statements, then) = written(args(Ok(vec![])));
    assert_eq!(params(&statements[0])[1], (String::from(":start"), String::from("0")));
    assert_eq!(params(&statements[0])[2], (String::from(":end"), String::from("10000000")));
    assert_eq!(conclude(then, &Ok(1)), Some((String::from("Well recorded."), String::new())));
    let (statements, then) = written(args(Ok(vec![task(1, "al", "c/p", "t", 0, 8_200_000)])));
    assert_eq!(params(&statements[0])[1], (String::from(":start"), String::from("8200000")));
    assert_eq!(
        conclude(then, &Ok(1)),
        Some((
            String::from(
                "Recorded, but adjusted to the end of your last task. Resulting in just 30 minutes"
            ),
            String::new()
        ))
    );
}

#[test]
fn done_with_a_task_under_way_only_answers_whatever_the_duration() {
    let step = done(
        String::from("al"),
        Duration { millis: u64::MAX },
        String::from("no/such"),
        String::from("dev"),
        SystemTime { millis: 10_000_000 },
        &vec![task(7, "bo", "c/p", "other", 0, 1), task(8, "al", "c/p", "writing", 0, 1)],
        missing(),
        &rows(),
        &Ok(vec![]),
    );
    assert_eq!(text_of(&step), "You are already doing writing, you're covered, or tricky :)");
}
