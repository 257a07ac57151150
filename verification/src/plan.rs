//! The forecast: when the work that users have committed to will happen.
//!
//! Each user has declared how much time they mean to give to a project (an
//! intent) and how much they can work per week (availability windows). From
//! the work already logged and the projects' deadlines, [`plan_all`] lays the
//! remaining work out week by week, nearest deadline first.
use crate::sorting::{
    in_order, is_in_order, lemma_before_stands_in_front, lemma_in_order, ranks,
};
use crate::store::{Avail, Intent, ProjectRecord, TaskRecord};
use crate::text::{contains_line, decimal, strings_view, u64_to_string};
use crate::time::{Duration, LocalTime, SystemTime, Weekday, MAX_SECS, WEEK_SECS};
use crate::util::{date_time_from_st, format_iso_date, iso_date};
use core::cmp::Ordering;
use vstd::prelude::*;

verus! {

/// Work left over that is no more than this many seconds is not planned.
pub const SPARE_SECS: u64 = 3_600;

/// The working day starts at 10:00 on the local clock.
pub const WORK_DAY_START: i64 = 36_000;

/// The working day ends at 18:00 on the local clock.
pub const WORK_DAY_END: i64 = 64_800;

/// A weekly availability is spread evenly over this many working days.
pub const WORK_DAYS_PER_WEEK: u64 = 5;

/// No intent is planned further ahead than this many weeks.
pub const HORIZON_WEEKS: u64 = 520;

// ---------------------------------------------------------------------------
// Calendar helpers

/// The working days from `t`'s day to the end of its week, that day included:
/// 5 on a Monday, 1 on a Friday, none at the weekend.
pub open spec fn working_days_remaining(t: LocalTime) -> int {
    if t.weekday_index() < 5 {
        5 - t.weekday_index()
    } else {
        0
    }
}

/// The working days from `dt`'s day to the end of its week, that day included.
pub fn working_days(dt: &LocalTime) -> (n: u64)
    requires
        dt.wf(),
    ensures
        n == working_days_remaining(*dt),
        n <= 5,
{
    match dt.weekday() {
        Weekday::Mon => 5,
        Weekday::Tue => 4,
        Weekday::Wed => 3,
        Weekday::Thu => 2,
        Weekday::Fri => 1,
        Weekday::Sat => 0,
        Weekday::Sun => 0,
    }
}

/// The same time of day on the first Monday after `t`'s day.
pub open spec fn next_monday_spec(t: LocalTime) -> LocalTime {
    t.plus_days(7 - t.weekday_index())
}

/// The same time of day on the first Monday after `dt`'s day: a week later
/// where `dt` is itself on a Monday.
pub fn next_monday(dt: &LocalTime) -> (monday: LocalTime)
    requires
        dt.wf(),
    ensures
        monday == next_monday_spec(*dt),
        monday.weekday_index() == 0,
        dt.secs < monday.secs <= dt.secs + 7 * 86_400,
        (monday.secs - dt.secs) % 86_400 == 0,
        monday.offset == dt.offset,
        monday.day() == dt.day() + (7 - dt.weekday_index()),
{
    proof {
        crate::time::lemma_plus_days(*dt, 7 - dt.weekday_index());
    }
    match dt.weekday() {
        Weekday::Mon => dt.add_days(7),
        Weekday::Tue => dt.add_days(6),
        Weekday::Wed => dt.add_days(5),
        Weekday::Thu => dt.add_days(4),
        Weekday::Fri => dt.add_days(3),
        Weekday::Sat => dt.add_days(2),
        Weekday::Sun => dt.add_days(1),
    }
}

/// The point in time, in seconds, at which the working day of `t`'s day starts.
pub open spec fn work_start(t: LocalTime) -> int {
    t.at_second_of_day(WORK_DAY_START as int)
}

/// The point in time, in seconds, at which the working day of `t`'s day ends.
pub open spec fn work_end(t: LocalTime) -> int {
    t.at_second_of_day(WORK_DAY_END as int)
}

/// The start and the end of the working day of `dt`'s day, in seconds since
/// the epoch.
pub fn work_day(dt: &LocalTime) -> (window: (i64, i64))
    requires
        dt.wf(),
    ensures
        window.0 == work_start(*dt),
        window.1 == work_end(*dt),
{
    let midnight: i64 = dt.day_number() * 86_400 - dt.offset as i64;
    (midnight + WORK_DAY_START, midnight + WORK_DAY_END)
}

// ---------------------------------------------------------------------------
// Capacity

/// Window `a` is one of `user`'s and overlaps the working day of `t`'s day.
pub open spec fn applies(a: Avail, user: Seq<char>, t: LocalTime) -> bool {
    &&& a.username@ == user
    &&& a.start_time.millis < work_end(t) * 1000
    &&& a.end_time.millis > work_start(t) * 1000
}

/// What window `a` allows for one day: a fifth of its weekly seconds.
pub open spec fn day_share(a: Avail) -> int {
    a.weekly.secs() / (WORK_DAYS_PER_WEEK as int)
}

/// Some window among `avails` applies to `user` on `t`'s day.
pub open spec fn any_applies(avails: Seq<Avail>, user: Seq<char>, t: LocalTime) -> bool {
    exists|i: int| 0 <= i < avails.len() && #[trigger] applies(avails[i], user, t)
}

/// `m` is the share of a window that applies to `user` on `t`'s day, and no
/// window that applies has a smaller one.
pub open spec fn is_least_share(avails: Seq<Avail>, user: Seq<char>, t: LocalTime, m: int) -> bool {
    &&& exists|i: int|
        0 <= i < avails.len() && #[trigger] applies(avails[i], user, t) && day_share(avails[i])
            == m
    &&& forall|j: int|
        0 <= j < avails.len() && #[trigger] applies(avails[j], user, t) ==> m <= day_share(
            avails[j],
        )
}

/// The seconds that `user` can work on `t`'s day: the least share among the
/// windows that apply, and nothing where none applies.
pub open spec fn daily_capacity(avails: Seq<Avail>, user: Seq<char>, t: LocalTime) -> int {
    if any_applies(avails, user, t) {
        choose|m: int| is_least_share(avails, user, t, m)
    } else {
        0
    }
}

/// The seconds that `user` can work on the `days` days that start with `t`'s day.
pub open spec fn capacity_from(avails: Seq<Avail>, user: Seq<char>, t: LocalTime, days: int) -> int
    decreases days,
{
    if days <= 0 {
        0
    } else {
        capacity_from(avails, user, t, days - 1) + daily_capacity(
            avails,
            user,
            t.plus_days(days - 1),
        )
    }
}

/// The seconds that `user` can work from `t`'s day to the end of its week.
pub open spec fn weekly_capacity(avails: Seq<Avail>, user: Seq<char>, t: LocalTime) -> int {
    capacity_from(avails, user, t, working_days_remaining(t))
}

/// Whether window `a` is one of `user`'s and overlaps the working day that
/// runs from `start` to `end`, both in seconds since the epoch.
fn window_applies(a: &Avail, user: &String, start: i64, end: i64) -> (b: bool)
    ensures
        b == (a.username@ == user@ && a.start_time.millis < end * 1000 && a.end_time.millis > start
            * 1000),
{
    a.username == *user && (a.start_time.millis as i128) < (end as i128) * 1000 && (
    a.end_time.millis as i128) > (start as i128) * 1000
}

/// The seconds that `user` can work on `dt`'s day.
pub fn daily_avail(dt: &LocalTime, user: &String, avails: &Vec<Avail>) -> (cap: u64)
    requires
        dt.wf(),
    ensures
        cap == daily_capacity(avails@, user@, *dt),
        any_applies(avails@, user@, *dt) ==> is_least_share(avails@, user@, *dt, cap as int),
        !any_applies(avails@, user@, *dt) ==> cap == 0,
        cap <= u64::MAX / 5000,
{
    let (start, end) = work_day(dt);
    let mut best: Option<u64> = None;
    let mut i: usize = 0;
    while i < avails.len()
        invariant
            i <= avails.len(),
            start == work_start(*dt),
            end == work_end(*dt),
            best is None ==> !any_applies(avails@.take(i as int), user@, *dt),
            best matches Some(m) ==> is_least_share(avails@.take(i as int), user@, *dt, m as int),
            best matches Some(m) ==> m <= u64::MAX / 5000,
        decreases avails.len() - i,
    {
        let ghost before = avails@.take(i as int);
        let ghost after = avails@.take(i + 1);
        proof {
            assert(after.drop_last() =~= before);
            assert(after.last() == avails@[i as int]);
            assert(forall|j: int| 0 <= j < i ==> before[j] == after[j]);
        }
        if window_applies(&avails[i], user, start, end) {
            let share: u64 = avails[i].weekly.as_secs() / WORK_DAYS_PER_WEEK;
            assert(applies(after[i as int], user@, *dt));
            assert(share == day_share(after[i as int]));
            match best {
                None => {
                    best = Some(share);
                    assert(forall|j: int|
                        0 <= j < i ==> !applies(#[trigger] before[j], user@, *dt));
                },
                Some(m) => {
                    let ghost k = choose|k: int|
                        0 <= k < before.len() && #[trigger] applies(before[k], user@, *dt)
                            && day_share(before[k]) == m;
                    assert(applies(after[k], user@, *dt));
                    if share < m {
                        best = Some(share);
                    }
                },
            }
        } else {
            proof {
                if best is Some {
                    let m = best->0;
                    let k = choose|k: int|
                        0 <= k < before.len() && #[trigger] applies(before[k], user@, *dt)
                            && day_share(before[k]) == m;
                    assert(applies(after[k], user@, *dt));
                } else {
                    assert(forall|j: int|
                        0 <= j < i ==> !applies(#[trigger] before[j], user@, *dt));
                }
            }
        }
        i = i + 1;
    }
    proof {
        assert(avails@.take(i as int) =~= avails@);
    }
    match best {
        None => 0,
        Some(m) => {
            proof {
                lemma_least_share_is_one(avails@, user@, *dt, m as int);
            }
            m
        },
    }
}

/// Two least shares of the same day are the same number, so the daily
/// capacity is any one that can be shown.
pub proof fn lemma_least_share_is_one(avails: Seq<Avail>, user: Seq<char>, t: LocalTime, m: int)
    requires
        is_least_share(avails, user, t, m),
    ensures
        any_applies(avails, user, t),
        daily_capacity(avails, user, t) == m,
{
    let c = choose|c: int| is_least_share(avails, user, t, c);
    assert(is_least_share(avails, user, t, c));
}

/// The seconds that `user` can work from `dt`'s day to the end of its week.
pub fn weekly_avail(dt: &LocalTime, user: &String, avails: &Vec<Avail>) -> (cap: u64)
    requires
        dt.wf(),
        dt.secs + WEEK_SECS <= MAX_SECS,
    ensures
        cap == weekly_capacity(avails@, user@, *dt),
{
    let days: u64 = working_days(dt);
    let mut total: u64 = 0;
    let mut i: u64 = 0;
    while i < days
        invariant
            i <= days <= 5,
            dt.wf(),
            dt.secs + WEEK_SECS <= MAX_SECS,
            total == capacity_from(avails@, user@, *dt, i as int),
            total <= i * (u64::MAX / 5000),
        decreases days - i,
    {
        let day = dt.add_days(i as i64);
        let cap = daily_avail(&day, user, avails);
        total = total + cap;
        i = i + 1;
    }
    total
}

// ---------------------------------------------------------------------------
// The order of deadlines

/// Project `a` is due strictly before project `b`: its deadline is the
/// earlier one, or it has a deadline and `b` has none, or neither has one and
/// `a` was started first.
pub open spec fn deadline_before(a: ProjectRecord, b: ProjectRecord) -> bool {
    match (a.end_time, b.end_time) {
        (None, None) => a.start_time.millis < b.start_time.millis,
        (Some(_), None) => true,
        (None, Some(_)) => false,
        (Some(x), Some(y)) => x.millis < y.millis,
    }
}

/// Orders two projects by deadline: the one due first is the lesser.
pub fn cmp_by_deadline(a: &ProjectRecord, b: &ProjectRecord) -> (o: Ordering)
    ensures
        o == Ordering::Less <==> deadline_before(*a, *b),
        o == Ordering::Greater <==> deadline_before(*b, *a),
{
    match (a.end_time, b.end_time) {
        (None, None) => {
            if a.start_time.millis < b.start_time.millis {
                Ordering::Less
            } else if a.start_time.millis > b.start_time.millis {
                Ordering::Greater
            } else {
                Ordering::Equal
            }
        },
        (Some(_), None) => Ordering::Less,
        (None, Some(_)) => Ordering::Greater,
        (Some(x), Some(y)) => {
            if x.millis < y.millis {
                Ordering::Less
            } else if x.millis > y.millis {
                Ordering::Greater
            } else {
                Ordering::Equal
            }
        },
    }
}

/// Whether project `a` is due strictly before project `b`.
fn due_before(a: &ProjectRecord, b: &ProjectRecord) -> (b4: bool)
    ensures
        b4 == deadline_before(*a, *b),
{
    match cmp_by_deadline(a, b) {
        Ordering::Less => true,
        Ordering::Equal => false,
        Ordering::Greater => false,
    }
}

/// The order of deadlines: [`deadline_before`] as a relation.
pub open spec fn due_first() -> spec_fn(ProjectRecord, ProjectRecord) -> bool {
    |a: ProjectRecord, b: ProjectRecord| deadline_before(a, b)
}

/// The projects of `s`, the one due first in front; projects that are due
/// together stay in the order in which `s` has them.
pub open spec fn sorted_by_deadline(s: Seq<ProjectRecord>) -> Seq<ProjectRecord> {
    in_order(s, due_first())
}

/// The projects that are not completed.
pub open spec fn open_projects(projects: Seq<ProjectRecord>) -> Seq<ProjectRecord> {
    projects.filter(|p: ProjectRecord| p.completed is None)
}

/// The projects that are not completed, the one due first in front.
pub open spec fn open_by_deadline(projects: Seq<ProjectRecord>) -> Seq<ProjectRecord> {
    sorted_by_deadline(open_projects(projects))
}

/// The projects that `order` points at, one after the other.
pub open spec fn picked(projects: Seq<ProjectRecord>, order: Seq<usize>) -> Seq<ProjectRecord> {
    order.map_values(|i: usize| projects[i as int])
}

/// The places in `projects` of those that are not completed, the one due
/// first in front.
pub fn deadline_order(projects: &Vec<ProjectRecord>) -> (order: Vec<usize>)
    ensures
        forall|k: int| 0 <= k < order.len() ==> #[trigger] order[k] < projects.len(),
        picked(projects@, order@) == open_by_deadline(projects@),
{
    let mut order: Vec<usize> = Vec::new();
    let mut i: usize = 0;
    assert(picked(projects@, order@) =~= Seq::empty());
    while i < projects.len()
        invariant
            i <= projects.len(),
            forall|k: int| 0 <= k < order.len() ==> #[trigger] order[k] < projects.len(),
            picked(projects@, order@) == open_by_deadline(projects@.take(i as int)),
        decreases projects.len() - i,
    {
        proof {
            reveal(Seq::filter);
            assert(projects@.take(i + 1).drop_last() =~= projects@.take(i as int));
            assert(projects@.take(i + 1).last() == projects@[i as int]);
        }
        if projects[i].completed.is_none() {
            let ghost sorted = picked(projects@, order@);
            let mut pos: usize = order.len();
            while pos > 0 && due_before(&projects[i], &projects[order[pos - 1]])
                invariant
                    pos <= order.len(),
                    i < projects.len(),
                    sorted == picked(projects@, order@),
                    forall|k: int| 0 <= k < order.len() ==> #[trigger] order[k] < projects.len(),
                    forall|k: int|
                        pos <= k < sorted.len() ==> deadline_before(
                            projects@[i as int],
                            #[trigger] sorted[k],
                        ),
                decreases pos,
            {
                pos = pos - 1;
            }
            proof {
                crate::sorting::lemma_insert_at(sorted, projects@[i as int], due_first(), pos as int);
                assert(open_projects(projects@.take(i + 1)) == open_projects(
                    projects@.take(i as int),
                ).push(projects@[i as int]));
                assert(open_projects(projects@.take(i + 1)).drop_last() =~= open_projects(
                    projects@.take(i as int),
                ));
            }
            order.insert(pos, i);
            assert(picked(projects@, order@) =~= sorted.insert(pos as int, projects@[i as int]));
        } else {
            assert(open_projects(projects@.take(i + 1)) == open_projects(
                projects@.take(i as int),
            ));
        }
        i = i + 1;
    }
    proof {
        assert(projects@.take(i as int) =~= projects@);
    }
    order
}

// ---------------------------------------------------------------------------
// Logged work and intents

/// Task `d` is work of `user` on `project`.
pub open spec fn is_work_on(d: TaskRecord, user: Seq<char>, project: Seq<char>) -> bool {
    d.project@ == project && d.username@ == user
}

/// The whole seconds that task `d` lasted: none where it ends before it starts.
pub open spec fn task_secs(d: TaskRecord) -> int {
    d.end_time.elapsed_since(d.start_time).secs()
}

/// The seconds that `user` has logged on `project`.
pub open spec fn done_secs(dones: Seq<TaskRecord>, user: Seq<char>, project: Seq<char>) -> int
    decreases dones.len(),
{
    if dones.len() == 0 {
        0
    } else if is_work_on(dones.last(), user, project) {
        done_secs(dones.drop_last(), user, project) + task_secs(dones.last())
    } else {
        done_secs(dones.drop_last(), user, project)
    }
}

/// The seconds that `username` has logged on `project_name`.
pub fn sum_done(username: &String, project_name: &String, dones: &Vec<TaskRecord>) -> (secs: u128)
    ensures
        secs == done_secs(dones@, username@, project_name@),
{
    let mut total: u128 = 0;
    let mut i: usize = 0;
    while i < dones.len()
        invariant
            i <= dones.len(),
            total == done_secs(dones@.take(i as int), username@, project_name@),
            total <= i * (u64::MAX / 1000),
        decreases dones.len() - i,
    {
        proof {
            assert(dones@.take(i + 1).drop_last() =~= dones@.take(i as int));
            assert(dones@.take(i + 1).last() == dones@[i as int]);
        }
        let d = &dones[i];
        if d.project == *project_name && d.username == *username {
            let lasted = d.end_time.since_or_zero(&d.start_time).as_secs();
            total = total + lasted as u128;
        }
        i = i + 1;
    }
    proof {
        assert(dones@.take(i as int) =~= dones@);
    }
    total
}

/// Intent `i` still stands at `now`: it never ends, or ends later.
pub open spec fn is_active(i: Intent, now: SystemTime) -> bool {
    match i.end_time {
        None => true,
        Some(end) => end.millis > now.millis,
    }
}

/// Intent `i` commits `user` to `project` at `now`.
pub open spec fn commits(i: Intent, user: Seq<char>, project: Seq<char>, now: SystemTime) -> bool {
    i.username@ == user && i.project@ == project && is_active(i, now)
}

/// The intent at `k` is the first of `intents` that commits `user` to `project`.
pub open spec fn is_first_commit(
    intents: Seq<Intent>,
    user: Seq<char>,
    project: Seq<char>,
    now: SystemTime,
    k: int,
) -> bool {
    &&& 0 <= k < intents.len()
    &&& commits(intents[k], user, project, now)
    &&& forall|j: int| 0 <= j < k ==> !commits(#[trigger] intents[j], user, project, now)
}

/// The first of `intents` that commits `user` to `project` at `now`.
pub open spec fn intent_of(
    intents: Seq<Intent>,
    user: Seq<char>,
    project: Seq<char>,
    now: SystemTime,
) -> Option<Intent> {
    if exists|k: int| is_first_commit(intents, user, project, now, k) {
        Some(intents[choose|k: int| is_first_commit(intents, user, project, now, k)])
    } else {
        None
    }
}

/// Whether intent `i` still stands at `now`.
fn intent_is_active(i: &Intent, now: &SystemTime) -> (b: bool)
    ensures
        b == is_active(*i, *now),
{
    match i.end_time {
        None => true,
        Some(end) => end.millis > now.millis,
    }
}

/// The first of `intents` that commits `username` to `project` at `now`.
pub fn find_intent<'a>(
    username: &String,
    project: &String,
    intents: &'a Vec<Intent>,
    now: &SystemTime,
) -> (found: Option<&'a Intent>)
    ensures
        match found {
            Some(i) => intent_of(intents@, username@, project@, *now) == Some(*i),
            None => intent_of(intents@, username@, project@, *now) is None,
        },
        found matches Some(i) ==> exists|k: int|
            is_first_commit(intents@, username@, project@, *now, k) && intents@[k] == *i,
        found is None ==> forall|k: int|
            0 <= k < intents.len() ==> !commits(#[trigger] intents@[k], username@, project@, *now),
{
    let mut i: usize = 0;
    while i < intents.len()
        invariant
            i <= intents.len(),
            forall|j: int|
                0 <= j < i ==> !commits(#[trigger] intents@[j], username@, project@, *now),
        decreases intents.len() - i,
    {
        let intent = &intents[i];
        if intent.username == *username && intent.project == *project && intent_is_active(
            intent,
            now,
        ) {
            proof {
                let k = i as int;
                assert(is_first_commit(intents@, username@, project@, *now, k));
                let c = choose|c: int| is_first_commit(intents@, username@, project@, *now, c);
                assert(c == k) by {
                    if c < k {
                        assert(!commits(intents@[c], username@, project@, *now));
                    }
                    if k < c {
                        assert(!commits(intents@[k], username@, project@, *now));
                    }
                }
            }
            return Some(intent);
        }
        i = i + 1;
    }
    proof {
        assert forall|k: int| !is_first_commit(intents@, username@, project@, *now, k) by {
            if 0 <= k < intents.len() {
                assert(!commits(intents@[k], username@, project@, *now));
            }
        }
    }
    None
}

/// The users who have an intent that still stands at `now`, each once, in
/// the order in which `intents` first names them.
pub open spec fn active_users(intents: Seq<Intent>, now: SystemTime) -> Seq<Seq<char>>
    decreases intents.len(),
{
    if intents.len() == 0 {
        Seq::empty()
    } else {
        let earlier = active_users(intents.drop_last(), now);
        let i = intents.last();
        if is_active(i, now) && !earlier.contains(i.username@) {
            earlier.push(i.username@)
        } else {
            earlier
        }
    }
}

/// The users who have an intent that still stands at `now`, each once, in
/// the order in which `intents` first names them.
pub fn active_usernames(intents: &Vec<Intent>, now: &SystemTime) -> (users: Vec<String>)
    ensures
        strings_view(users@) == active_users(intents@, *now),
{
    let mut users: Vec<String> = Vec::new();
    let mut i: usize = 0;
    assert(strings_view(users@) =~= Seq::empty());
    while i < intents.len()
        invariant
            i <= intents.len(),
            strings_view(users@) == active_users(intents@.take(i as int), *now),
        decreases intents.len() - i,
    {
        proof {
            assert(intents@.take(i + 1).drop_last() =~= intents@.take(i as int));
            assert(intents@.take(i + 1).last() == intents@[i as int]);
        }
        let intent = &intents[i];
        if intent_is_active(intent, now) && !contains_line(&users, &intent.username) {
            let ghost earlier = strings_view(users@);
            users.push(intent.username.clone());
            assert(strings_view(users@) =~= earlier.push(intent.username@));
        }
        i = i + 1;
    }
    proof {
        assert(intents@.take(i as int) =~= intents@);
    }
    users
}

// ---------------------------------------------------------------------------
// Work loads

/// A stretch of work that is planned: `load` of work by `user` on `project`,
/// in the week that `start` lies in.
#[derive(Debug)]
pub struct WorkLoad {
    start: LocalTime,
    user: String,
    project: String,
    load: Duration,
}

/// What a [`WorkLoad`] says.
pub struct WorkLoadView {
    pub start: LocalTime,
    pub user: Seq<char>,
    pub project: Seq<char>,
    pub load: Duration,
}

impl View for WorkLoad {
    type V = WorkLoadView;

    closed spec fn view(&self) -> WorkLoadView {
        WorkLoadView {
            start: self.start,
            user: self.user@,
            project: self.project@,
            load: self.load,
        }
    }
}

impl DeepView for WorkLoad {
    type V = WorkLoadView;

    open spec fn deep_view(&self) -> WorkLoadView {
        self@
    }
}

impl WorkLoad {
    /// A load of no work at the epoch, for `user` on `project`.
    fn partial(user: &String, project: &String) -> (w: WorkLoad)
        ensures
            w@ == (WorkLoadView {
                start: LocalTime { secs: 0, offset: 0 },
                user: user@,
                project: project@,
                load: Duration { millis: 0 },
            }),
    {
        WorkLoad {
            start: LocalTime { secs: 0, offset: 0 },
            user: user.clone(),
            project: project.clone(),
            load: Duration { millis: 0 },
        }
    }

    /// The same user and project, with `load` of work from `start`.
    fn and_load(&self, start: LocalTime, load: Duration) -> (w: WorkLoad)
        ensures
            w@ == (WorkLoadView { start, user: self@.user, project: self@.project, load }),
    {
        WorkLoad { user: self.user.clone(), project: self.project.clone(), start, load }
    }

    /// When the work starts.
    pub fn start(&self) -> (start: &LocalTime)
        ensures
            *start == self@.start,
    {
        &self.start
    }

    /// Who does the work.
    pub fn user(&self) -> (user: &str)
        ensures
            user@ == self@.user,
    {
        self.user.as_str()
    }

    /// The project that the work is for.
    pub fn project(&self) -> (project: &str)
        ensures
            project@ == self@.project,
    {
        self.project.as_str()
    }

    /// How much work it is.
    pub fn load(&self) -> (load: &Duration)
        ensures
            *load == self@.load,
    {
        &self.load
    }

    /// The work load in a line: see [`load_text`].
    pub fn to_string(&self) -> (text: String)
        requires
            self@.start.wf(),
        ensures
            text@ == load_text(self@),
    {
        let mut text = self.project.clone();
        text.append(self.user.as_str());
        text.append(" ");
        let date = format_iso_date(&self.start);
        text.append(date.as_str());
        text.append(" ");
        let hours = u64_to_string(self.load.as_secs() / 3600);
        text.append(hours.as_str());
        text
    }
}

/// The work load `w` in a line: the project and the user, the day it starts
/// on as year, month and day, and its whole hours.
pub open spec fn load_text(w: WorkLoadView) -> Seq<char> {
    w.project + w.user + " "@ + iso_date(w.start.secs, w.start.offset) + " "@ + decimal(
        (w.load.secs() / 3600) as nat,
    )
}

// ---------------------------------------------------------------------------
// The allocator

/// The chunks of work, each with the time it starts at and its seconds, that
/// `remaining` seconds of work of `user` fall into from `dt` on, over no more
/// than `weeks` weeks. Week by week the work takes all that the user can do;
/// the first week that can hold all that remains gets it and is the last.
pub open spec fn allocation(
    avails: Seq<Avail>,
    user: Seq<char>,
    dt: LocalTime,
    remaining: int,
    weeks: int,
) -> Seq<(LocalTime, int)>
    decreases weeks,
{
    if weeks <= 0 || remaining <= SPARE_SECS {
        Seq::empty()
    } else {
        let cap = weekly_capacity(avails, user, dt);
        if cap > remaining {
            seq![(dt, remaining)]
        } else {
            seq![(dt, cap)] + allocation(
                avails,
                user,
                next_monday_spec(dt),
                remaining - cap,
                weeks - 1,
            )
        }
    }
}

/// The seconds of work that [`allocation`] leaves out of its chunks.
pub open spec fn unscheduled(
    avails: Seq<Avail>,
    user: Seq<char>,
    dt: LocalTime,
    remaining: int,
    weeks: int,
) -> int
    decreases weeks,
{
    if weeks <= 0 || remaining <= SPARE_SECS {
        remaining
    } else {
        let cap = weekly_capacity(avails, user, dt);
        if cap > remaining {
            0
        } else {
            unscheduled(avails, user, next_monday_spec(dt), remaining - cap, weeks - 1)
        }
    }
}

/// Where [`allocation`] stops: the Monday after its last full week, or, where
/// a last week holds all that remained, as many working days into that week
/// as the work there takes of the week's capacity.
pub open spec fn finish(
    avails: Seq<Avail>,
    user: Seq<char>,
    dt: LocalTime,
    remaining: int,
    weeks: int,
) -> LocalTime
    decreases weeks,
{
    if weeks <= 0 || remaining <= SPARE_SECS {
        dt
    } else {
        let cap = weekly_capacity(avails, user, dt);
        if cap > remaining {
            dt.plus_days(remaining * working_days_remaining(dt) / cap)
        } else {
            finish(avails, user, next_monday_spec(dt), remaining - cap, weeks - 1)
        }
    }
}

/// The work loads of `user` on `project` that `chunks` stand for.
pub open spec fn loads_of(user: Seq<char>, project: Seq<char>, chunks: Seq<(LocalTime, int)>) -> Seq<
    WorkLoadView,
> {
    chunks.map_values(
        |c: (LocalTime, int)|
            WorkLoadView {
                start: c.0,
                user,
                project,
                load: Duration { millis: (c.1 * 1000) as u64 },
            },
    )
}

/// A forecast can start at `now`: the horizon lies within what calendars can name.
pub open spec fn can_plan_from(now: LocalTime) -> bool {
    now.wf() && now.secs + HORIZON_WEEKS * WEEK_SECS <= MAX_SECS
}

/// What the allocator found for one user and one project.
#[derive(Debug)]
pub struct Allocation {
    /// The planned work, week by week.
    pub loads: Vec<WorkLoad>,
    /// Where the allocator stopped.
    pub finish: LocalTime,
    /// The seconds of work that are not in `loads`.
    pub unscheduled: u64,
    /// The horizon was reached with more than the spare hour left over.
    pub truncated: bool,
}

/// Lays `amount` seconds of work of `user` on `project` out over the weeks
/// from `now` on, as far as the horizon.
pub fn allocate(
    user: &String,
    project: &String,
    avails: &Vec<Avail>,
    now: &LocalTime,
    amount: u64,
) -> (a: Allocation)
    requires
        can_plan_from(*now),
        amount * 1000 <= u64::MAX,
    ensures
        a.loads.deep_view() == loads_of(
            user@,
            project@,
            allocation(avails@, user@, *now, amount as int, HORIZON_WEEKS as int),
        ),
        a.finish == finish(avails@, user@, *now, amount as int, HORIZON_WEEKS as int),
        a.unscheduled == unscheduled(avails@, user@, *now, amount as int, HORIZON_WEEKS as int),
        a.truncated == (a.unscheduled > SPARE_SECS),
{
    let partial = WorkLoad::partial(user, project);
    let mut loads: Vec<WorkLoad> = Vec::new();
    let mut dt: LocalTime = *now;
    let mut remaining: u64 = amount;
    let mut week: u64 = 0;
    let ghost whole = allocation(avails@, user@, *now, amount as int, HORIZON_WEEKS as int);
    let ghost mut chunks: Seq<(LocalTime, int)> = Seq::empty();
    proof {
        assert(chunks + whole =~= whole);
        assert(loads.deep_view() =~= loads_of(user@, project@, chunks));
    }
    while remaining > SPARE_SECS && week < HORIZON_WEEKS
        invariant
            can_plan_from(*now),
            week <= HORIZON_WEEKS,
            dt.wf(),
            now.secs <= dt.secs <= now.secs + week * WEEK_SECS,
            remaining <= amount,
            amount * 1000 <= u64::MAX,
            partial@.user == user@,
            partial@.project == project@,
            whole == chunks + allocation(
                avails@,
                user@,
                dt,
                remaining as int,
                HORIZON_WEEKS - week,
            ),
            loads.deep_view() == loads_of(user@, project@, chunks),
            finish(avails@, user@, *now, amount as int, HORIZON_WEEKS as int) == finish(
                avails@,
                user@,
                dt,
                remaining as int,
                HORIZON_WEEKS - week,
            ),
            unscheduled(avails@, user@, *now, amount as int, HORIZON_WEEKS as int) == unscheduled(
                avails@,
                user@,
                dt,
                remaining as int,
                HORIZON_WEEKS - week,
            ),
        decreases HORIZON_WEEKS - week,
    {
        let cap = weekly_avail(&dt, user, avails);
        let ghost rest = allocation(avails@, user@, dt, remaining as int, HORIZON_WEEKS - week);
        let ghost before = loads.deep_view();
        if cap > remaining {
            let w = partial.and_load(dt, Duration::from_millis(remaining * 1000));
            let days = working_days(&dt);
            assert(remaining * days <= 5 * remaining) by (nonlinear_arith)
                requires
                    0 <= remaining,
                    0 <= days <= 5,
            ;
            assert(remaining * days / (cap as int) <= 5) by (nonlinear_arith)
                requires
                    0 <= remaining * days <= 5 * cap,
                    0 < cap,
            ;
            let into_week: u64 = remaining * days / cap;
            proof {
                chunks = chunks.push((dt, remaining as int));
                assert(rest =~= seq![(dt, remaining as int)]);
                assert(whole =~= chunks);
            }
            loads.push(w);
            dt = dt.add_days(into_week as i64);
            remaining = 0;
            week = week + 1;
            proof {
                assert(chunks + allocation(
                    avails@,
                    user@,
                    dt,
                    remaining as int,
                    HORIZON_WEEKS - week,
                ) =~= chunks);
            }
        } else {
            let w = partial.and_load(dt, Duration::from_millis(cap * 1000));
            let ghost next = allocation(
                avails@,
                user@,
                next_monday_spec(dt),
                remaining - cap,
                HORIZON_WEEKS - week - 1,
            );
            proof {
                assert(rest == seq![(dt, cap as int)] + next);
                assert(chunks + rest =~= chunks.push((dt, cap as int)) + next);
                chunks = chunks.push((dt, cap as int));
            }
            loads.push(w);
            dt = next_monday(&dt);
            remaining = remaining - cap;
            week = week + 1;
        }
        proof {
            assert(loads.deep_view() =~= before.push(loads@.last()@));
            assert(loads.deep_view() =~= loads_of(user@, project@, chunks));
        }
    }
    Allocation { loads, finish: dt, unscheduled: remaining, truncated: remaining > SPARE_SECS }
}

// ---------------------------------------------------------------------------
// The plan

/// The forecast: for each user the projects they are committed to, the one
/// due first in front, and for each of these the work loads week by week.
pub type WorkPlan = Vec<(String, Vec<(String, Vec<WorkLoad>)>)>;

/// A forecast, and whether any of it was cut short at the horizon.
#[derive(Debug)]
pub struct Forecast {
    pub plan: WorkPlan,
    pub truncated: bool,
}

/// The work loads of `user` on `project` from `dt` on: none where the logged
/// work has reached the intent's amount, else the allocation of what is left.
pub open spec fn project_loads(
    user: Seq<char>,
    project: Seq<char>,
    intent: Intent,
    avails: Seq<Avail>,
    dones: Seq<TaskRecord>,
    dt: LocalTime,
) -> Seq<WorkLoadView> {
    let done = done_secs(dones, user, project);
    if done >= intent.amount.secs() {
        Seq::empty()
    } else {
        loads_of(
            user,
            project,
            allocation(avails, user, dt, intent.amount.secs() - done, HORIZON_WEEKS as int),
        )
    }
}

/// The work of `user` on `project` does not fit before the horizon: more
/// than the spare hour of it is left out of [`project_loads`].
pub open spec fn project_cut_short(
    user: Seq<char>,
    project: Seq<char>,
    intent: Intent,
    avails: Seq<Avail>,
    dones: Seq<TaskRecord>,
    dt: LocalTime,
) -> bool {
    let done = done_secs(dones, user, project);
    done < intent.amount.secs() && unscheduled(
        avails,
        user,
        dt,
        intent.amount.secs() - done,
        HORIZON_WEEKS as int,
    ) > SPARE_SECS
}

/// The plan of `user`: for each project of `sorted` that the user is
/// committed to, in that order, its name and its work loads.
pub open spec fn user_plan(
    sorted: Seq<ProjectRecord>,
    user: Seq<char>,
    intents: Seq<Intent>,
    avails: Seq<Avail>,
    dones: Seq<TaskRecord>,
    now: SystemTime,
    dt: LocalTime,
) -> Seq<(Seq<char>, Seq<WorkLoadView>)>
    decreases sorted.len(),
{
    if sorted.len() == 0 {
        Seq::empty()
    } else {
        let earlier = user_plan(sorted.drop_last(), user, intents, avails, dones, now, dt);
        let p = sorted.last();
        match intent_of(intents, user, p.name@, now) {
            None => earlier,
            Some(intent) => earlier.push(
                (p.name@, project_loads(user, p.name@, intent, avails, dones, dt)),
            ),
        }
    }
}

/// Some project of `sorted` that `user` is committed to is cut short.
pub open spec fn user_cut_short(
    sorted: Seq<ProjectRecord>,
    user: Seq<char>,
    intents: Seq<Intent>,
    avails: Seq<Avail>,
    dones: Seq<TaskRecord>,
    now: SystemTime,
    dt: LocalTime,
) -> bool
    decreases sorted.len(),
{
    if sorted.len() == 0 {
        false
    } else {
        let p = sorted.last();
        user_cut_short(sorted.drop_last(), user, intents, avails, dones, now, dt) || match intent_of(
            intents,
            user,
            p.name@,
            now,
        ) {
            None => false,
            Some(intent) => project_cut_short(user, p.name@, intent, avails, dones, dt),
        }
    }
}

/// The local time that a forecast made at `now` starts from, on a clock
/// that is `offset` seconds ahead of UTC.
pub open spec fn start_of_plan(now: SystemTime, offset: int) -> LocalTime {
    LocalTime { secs: (now.millis / 1000) as i64, offset: offset as i32 }
}

/// The plans of `users`, one after the other.
pub open spec fn plans_of(
    users: Seq<Seq<char>>,
    sorted: Seq<ProjectRecord>,
    intents: Seq<Intent>,
    avails: Seq<Avail>,
    dones: Seq<TaskRecord>,
    now: SystemTime,
    dt: LocalTime,
) -> Seq<(Seq<char>, Seq<(Seq<char>, Seq<WorkLoadView>)>)> {
    users.map_values(|u: Seq<char>| (u, user_plan(sorted, u, intents, avails, dones, now, dt)))
}

/// The plan of one of `users` is cut short.
pub open spec fn any_cut_short(
    users: Seq<Seq<char>>,
    sorted: Seq<ProjectRecord>,
    intents: Seq<Intent>,
    avails: Seq<Avail>,
    dones: Seq<TaskRecord>,
    now: SystemTime,
    dt: LocalTime,
) -> bool {
    exists|u: int|
        0 <= u < users.len() && #[trigger] user_cut_short(
            sorted,
            users[u],
            intents,
            avails,
            dones,
            now,
            dt,
        )
}

/// The forecast made at `now` on a clock that is `offset` seconds ahead of
/// UTC: the plan of every user with an intent that still stands, over the
/// projects that are not completed, the one due first in front.
pub open spec fn plan_spec(
    projects: Seq<ProjectRecord>,
    intents: Seq<Intent>,
    avails: Seq<Avail>,
    dones: Seq<TaskRecord>,
    now: SystemTime,
    offset: int,
) -> Seq<(Seq<char>, Seq<(Seq<char>, Seq<WorkLoadView>)>)> {
    plans_of(
        active_users(intents, now),
        open_by_deadline(projects),
        intents,
        avails,
        dones,
        now,
        start_of_plan(now, offset),
    )
}

/// Some work of the forecast made at `now` does not fit before the horizon.
pub open spec fn plan_cut_short(
    projects: Seq<ProjectRecord>,
    intents: Seq<Intent>,
    avails: Seq<Avail>,
    dones: Seq<TaskRecord>,
    now: SystemTime,
    offset: int,
) -> bool {
    any_cut_short(
        active_users(intents, now),
        open_by_deadline(projects),
        intents,
        avails,
        dones,
        now,
        start_of_plan(now, offset),
    )
}

/// The plan of `user` over the projects that `order` points at, in that
/// order, from `dt` on, and whether any of it is cut short at the horizon.
pub fn plan_user(
    user: &String,
    order: &Vec<usize>,
    projects: &Vec<ProjectRecord>,
    intents: &Vec<Intent>,
    avails: &Vec<Avail>,
    dones: &Vec<TaskRecord>,
    now: &SystemTime,
    dt: &LocalTime,
) -> (planned: (Vec<(String, Vec<WorkLoad>)>, bool))
    requires
        can_plan_from(*dt),
        forall|k: int| 0 <= k < order.len() ==> #[trigger] order[k] < projects.len(),
    ensures
        planned.0.deep_view() == user_plan(
            picked(projects@, order@),
            user@,
            intents@,
            avails@,
            dones@,
            *now,
            *dt,
        ),
        planned.1 == user_cut_short(
            picked(projects@, order@),
            user@,
            intents@,
            avails@,
            dones@,
            *now,
            *dt,
        ),
{
    let ghost sorted = picked(projects@, order@);
    let mut entries: Vec<(String, Vec<WorkLoad>)> = Vec::new();
    let mut cut_short = false;
    let mut k: usize = 0;
    assert(entries.deep_view() =~= Seq::empty());
    while k < order.len()
        invariant
            k <= order.len(),
            can_plan_from(*dt),
            sorted == picked(projects@, order@),
            forall|j: int| 0 <= j < order.len() ==> #[trigger] order[j] < projects.len(),
            entries.deep_view() == user_plan(
                sorted.take(k as int),
                user@,
                intents@,
                avails@,
                dones@,
                *now,
                *dt,
            ),
            cut_short == user_cut_short(
                sorted.take(k as int),
                user@,
                intents@,
                avails@,
                dones@,
                *now,
                *dt,
            ),
        decreases order.len() - k,
    {
        proof {
            assert(sorted.take(k + 1).drop_last() =~= sorted.take(k as int));
            assert(sorted.take(k + 1).last() == projects@[order@[k as int] as int]);
        }
        let p = &projects[order[k]];
        match find_intent(user, &p.name, intents, now) {
            None => {},
            Some(intent) => {
                let done = sum_done(user, &p.name, dones);
                let amount = intent.amount.as_secs();
                let mut loads: Vec<WorkLoad> = Vec::new();
                assert(loads.deep_view() =~= Seq::empty());
                if done < amount as u128 {
                    let a = allocate(user, &p.name, avails, dt, amount - done as u64);
                    loads = a.loads;
                    cut_short = cut_short || a.truncated;
                }
                let ghost before = entries.deep_view();
                let ghost planned = loads.deep_view();
                entries.push((p.name.clone(), loads));
                assert(entries.deep_view() =~= before.push((p.name@, planned)));
            },
        }
        k = k + 1;
    }
    proof {
        assert(sorted.take(k as int) =~= sorted);
    }
    (entries, cut_short)
}

/// The forecast made at `start_time`, on a clock that is `offset` seconds
/// ahead of UTC.
pub fn plan_in_zone(
    projects: &Vec<ProjectRecord>,
    intents: &Vec<Intent>,
    avails: &Vec<Avail>,
    dones: &Vec<TaskRecord>,
    start_time: SystemTime,
    offset: i32,
) -> (forecast: Forecast)
    requires
        -86_400 < offset < 86_400,
        start_time.millis / 1000 + HORIZON_WEEKS * WEEK_SECS <= MAX_SECS,
    ensures
        forecast.plan.deep_view() == plan_spec(
            projects@,
            intents@,
            avails@,
            dones@,
            start_time,
            offset as int,
        ),
        forecast.truncated == plan_cut_short(
            projects@,
            intents@,
            avails@,
            dones@,
            start_time,
            offset as int,
        ),
        starts_wf(forecast.plan.deep_view()),
{
    proof {
        lemma_plan_starts_wf(projects@, intents@, avails@, dones@, start_time, offset as int);
    }
    let dt = LocalTime { secs: (start_time.millis / 1000) as i64, offset };
    let order = deadline_order(projects);
    let users = active_usernames(intents, &start_time);
    let ghost sorted = open_by_deadline(projects@);
    let ghost names = active_users(intents@, start_time);
    let mut plan: WorkPlan = Vec::new();
    let mut truncated = false;
    let mut u: usize = 0;
    assert(plan.deep_view() =~= plans_of(
        names.take(0),
        sorted,
        intents@,
        avails@,
        dones@,
        start_time,
        dt,
    ));
    while u < users.len()
        invariant
            u <= users.len(),
            can_plan_from(dt),
            dt == start_of_plan(start_time, offset as int),
            sorted == picked(projects@, order@),
            names == strings_view(users@),
            forall|j: int| 0 <= j < order.len() ==> #[trigger] order[j] < projects.len(),
            plan.deep_view() == plans_of(
                names.take(u as int),
                sorted,
                intents@,
                avails@,
                dones@,
                start_time,
                dt,
            ),
            truncated == any_cut_short(
                names.take(u as int),
                sorted,
                intents@,
                avails@,
                dones@,
                start_time,
                dt,
            ),
        decreases users.len() - u,
    {
        let (entries, cut_short) = plan_user(
            &users[u],
            &order,
            projects,
            intents,
            avails,
            dones,
            &start_time,
            &dt,
        );
        let ghost before = plan.deep_view();
        let ghost planned = entries.deep_view();
        plan.push((users[u].clone(), entries));
        proof {
            let earlier = names.take(u as int);
            let later = names.take(u + 1);
            assert(later[u as int] == users@[u as int]@);
            assert(plan.deep_view() =~= before.push((users@[u as int]@, planned)));
            assert(plan.deep_view() =~= plans_of(
                later,
                sorted,
                intents@,
                avails@,
                dones@,
                start_time,
                dt,
            ));
            assert(forall|j: int| 0 <= j < u ==> earlier[j] == later[j]);
            if cut_short {
                assert(user_cut_short(
                    sorted,
                    later[u as int],
                    intents@,
                    avails@,
                    dones@,
                    start_time,
                    dt,
                ));
            }
            if truncated {
                let w = choose|w: int|
                    0 <= w < earlier.len() && #[trigger] user_cut_short(
                        sorted,
                        earlier[w],
                        intents@,
                        avails@,
                        dones@,
                        start_time,
                        dt,
                    );
                assert(user_cut_short(
                    sorted,
                    later[w],
                    intents@,
                    avails@,
                    dones@,
                    start_time,
                    dt,
                ));
            }
            if any_cut_short(later, sorted, intents@, avails@, dones@, start_time, dt) {
                let w = choose|w: int|
                    0 <= w < later.len() && #[trigger] user_cut_short(
                        sorted,
                        later[w],
                        intents@,
                        avails@,
                        dones@,
                        start_time,
                        dt,
                    );
                if w < u {
                    assert(user_cut_short(
                        sorted,
                        earlier[w],
                        intents@,
                        avails@,
                        dones@,
                        start_time,
                        dt,
                    ));
                }
            }
        }
        truncated = truncated || cut_short;
        u = u + 1;
    }
    proof {
        assert(names.take(u as int) =~= names);
    }
    Forecast { plan, truncated }
}

/// The forecast made at `start_time`, on the clock of this machine's time
/// zone: [`plan_in_zone`] with the offset that the clock has at that time.
pub fn plan_all(
    projects: &Vec<ProjectRecord>,
    intents: &Vec<Intent>,
    avails: &Vec<Avail>,
    dones: &Vec<TaskRecord>,
    start_time: SystemTime,
) -> (plan: WorkPlan)
    requires
        start_time.millis / 1000 + HORIZON_WEEKS * WEEK_SECS <= MAX_SECS,
    ensures
        exists|offset: int|
            -86_400 < offset < 86_400 && plan.deep_view() == #[trigger] plan_spec(
                projects@,
                intents@,
                avails@,
                dones@,
                start_time,
                offset,
            ),
{
    let dt = date_time_from_st(&start_time);
    let forecast = plan_in_zone(projects, intents, avails, dones, start_time, dt.offset);
    forecast.plan
}

// ---------------------------------------------------------------------------
// Looking into a plan

/// The work loads of the projects in `entries`, one project after the other.
pub open spec fn loads_in(entries: Seq<(String, Vec<WorkLoad>)>) -> Seq<WorkLoad>
    decreases entries.len(),
{
    if entries.len() == 0 {
        Seq::empty()
    } else {
        loads_in(entries.drop_last()) + entries.last().1@
    }
}

/// Every work load of `plan`, one user after the other.
pub open spec fn all_loads(plan: Seq<(String, Vec<(String, Vec<WorkLoad>)>)>) -> Seq<WorkLoad>
    decreases plan.len(),
{
    if plan.len() == 0 {
        Seq::empty()
    } else {
        all_loads(plan.drop_last()) + loads_in(plan.last().1@)
    }
}

/// Work load `w` starts at `start` or later, and before `end`.
pub open spec fn starts_within(w: WorkLoad, start: LocalTime, end: LocalTime) -> bool {
    start.secs <= w@.start.secs < end.secs
}

/// The test of [`starts_within`] for the window from `start` to `end`.
pub open spec fn within(start: LocalTime, end: LocalTime) -> spec_fn(WorkLoad) -> bool {
    |w: WorkLoad| starts_within(w, start, end)
}

/// The work loads that `found` points at.
pub open spec fn pointed(found: Seq<&WorkLoad>) -> Seq<WorkLoad> {
    found.map_values(|w: &WorkLoad| *w)
}

/// Adds to `found` the work loads of `loads` that start within the window.
fn find_in_loads<'a>(
    loads: &'a Vec<WorkLoad>,
    start: &LocalTime,
    end: &LocalTime,
    found: &mut Vec<&'a WorkLoad>,
)
    ensures
        pointed(final(found)@) == pointed(old(found)@) + loads@.filter(within(*start, *end)),
{
    let ghost had = pointed(found@);
    let mut k: usize = 0;
    proof {
        reveal(Seq::filter);
        assert(pointed(found@) =~= had + loads@.take(0).filter(within(*start, *end)));
    }
    while k < loads.len()
        invariant
            k <= loads.len(),
            pointed(found@) == had + loads@.take(k as int).filter(within(*start, *end)),
        decreases loads.len() - k,
    {
        proof {
            reveal(Seq::filter);
            assert(loads@.take(k + 1).drop_last() =~= loads@.take(k as int));
            assert(loads@.take(k + 1).last() == loads@[k as int]);
        }
        let load = &loads[k];
        if load.start.secs >= start.secs && load.start.secs < end.secs {
            let ghost before = pointed(found@);
            found.push(load);
            assert(pointed(found@) =~= before.push(loads@[k as int]));
            assert(pointed(found@) =~= had + loads@.take(k + 1).filter(within(*start, *end)));
        }
        k = k + 1;
    }
    proof {
        assert(loads@.take(k as int) =~= loads@);
    }
}

/// Adds to `found` the work loads of `entries` that start within the window.
fn find_in_entries<'a>(
    entries: &'a Vec<(String, Vec<WorkLoad>)>,
    start: &LocalTime,
    end: &LocalTime,
    found: &mut Vec<&'a WorkLoad>,
)
    ensures
        pointed(final(found)@) == pointed(old(found)@) + loads_in(entries@).filter(
            within(*start, *end),
        ),
{
    let ghost had = pointed(found@);
    let mut j: usize = 0;
    proof {
        reveal(Seq::filter);
        assert(pointed(found@) =~= had + loads_in(entries@.take(0)).filter(within(*start, *end)));
    }
    while j < entries.len()
        invariant
            j <= entries.len(),
            pointed(found@) == had + loads_in(entries@.take(j as int)).filter(
                within(*start, *end),
            ),
        decreases entries.len() - j,
    {
        proof {
            assert(entries@.take(j + 1).drop_last() =~= entries@.take(j as int));
            assert(entries@.take(j + 1).last() == entries@[j as int]);
            Seq::filter_distributes_over_add(
                loads_in(entries@.take(j as int)),
                entries@[j as int].1@,
                within(*start, *end),
            );
        }
        let ghost before = pointed(found@);
        find_in_loads(&entries[j].1, start, end, found);
        assert(pointed(found@) =~= had + loads_in(entries@.take(j + 1)).filter(
            within(*start, *end),
        ));
        j = j + 1;
    }
    proof {
        assert(entries@.take(j as int) =~= entries@);
    }
}

/// The work loads of `plan` that start at `start` or later and before `end`:
/// all of them and no others, in the order in which the plan holds them.
pub fn find_loads<'a>(plan: &'a WorkPlan, start: &LocalTime, end: &LocalTime) -> (found: Vec<
    &'a WorkLoad,
>)
    ensures
        pointed(found@) == all_loads(plan@).filter(within(*start, *end)),
{
    let mut found: Vec<&'a WorkLoad> = Vec::new();
    let mut i: usize = 0;
    proof {
        reveal(Seq::filter);
        assert(pointed(found@) =~= all_loads(plan@.take(0)).filter(within(*start, *end)));
    }
    while i < plan.len()
        invariant
            i <= plan.len(),
            pointed(found@) == all_loads(plan@.take(i as int)).filter(within(*start, *end)),
        decreases plan.len() - i,
    {
        proof {
            assert(plan@.take(i + 1).drop_last() =~= plan@.take(i as int));
            assert(plan@.take(i + 1).last() == plan@[i as int]);
            Seq::filter_distributes_over_add(
                all_loads(plan@.take(i as int)),
                loads_in(plan@[i as int].1@),
                within(*start, *end),
            );
        }
        find_in_entries(&plan[i].1, start, end, &mut found);
        i = i + 1;
    }
    proof {
        assert(plan@.take(i as int) =~= plan@);
    }
    found
}

// ---------------------------------------------------------------------------
// What holds of every forecast

/// The seconds of the chunks of `chunks`, added up.
pub open spec fn total_secs(chunks: Seq<(LocalTime, int)>) -> int
    decreases chunks.len(),
{
    if chunks.len() == 0 {
        0
    } else {
        chunks[0].1 + total_secs(chunks.skip(1))
    }
}

/// The whole seconds of the work loads of `loads`, added up.
pub open spec fn planned_secs(loads: Seq<WorkLoadView>) -> int
    decreases loads.len(),
{
    if loads.len() == 0 {
        0
    } else {
        loads[0].load.secs() + planned_secs(loads.skip(1))
    }
}

/// Where some window applies on a day there is a least share among the
/// windows that apply.
pub proof fn lemma_least_share_exists(avails: Seq<Avail>, user: Seq<char>, t: LocalTime)
    requires
        any_applies(avails, user, t),
    ensures
        exists|m: int| is_least_share(avails, user, t, m),
    decreases avails.len(),
{
    let rest = avails.drop_last();
    let a = avails.last();
    assert(forall|j: int| 0 <= j < rest.len() ==> rest[j] == avails[j]);
    let i = choose|i: int| 0 <= i < avails.len() && #[trigger] applies(avails[i], user, t);
    if any_applies(rest, user, t) {
        lemma_least_share_exists(rest, user, t);
        let m = choose|m: int| is_least_share(rest, user, t, m);
        let k = choose|k: int|
            0 <= k < rest.len() && #[trigger] applies(rest[k], user, t) && day_share(rest[k]) == m;
        assert(applies(avails[k], user, t));
        if applies(a, user, t) && day_share(a) < m {
            assert(applies(avails[avails.len() - 1], user, t));
            assert(is_least_share(avails, user, t, day_share(a)));
        } else {
            assert(is_least_share(avails, user, t, m));
        }
    } else {
        assert(i == avails.len() - 1) by {
            if i < avails.len() - 1 {
                assert(applies(rest[i], user, t));
            }
        }
        assert(is_least_share(avails, user, t, day_share(a)));
    }
}

/// No day has less than no capacity, and no day has more than a fifth of the
/// largest weekly availability that can be written down.
pub proof fn lemma_daily_capacity_bounds(avails: Seq<Avail>, user: Seq<char>, t: LocalTime)
    ensures
        0 <= daily_capacity(avails, user, t) <= u64::MAX / 5000,
{
    if any_applies(avails, user, t) {
        lemma_least_share_exists(avails, user, t);
        let m = choose|m: int| is_least_share(avails, user, t, m);
        assert(is_least_share(avails, user, t, m));
    }
}

/// No stretch of days has less than no capacity.
pub proof fn lemma_capacity_not_negative(
    avails: Seq<Avail>,
    user: Seq<char>,
    t: LocalTime,
    days: int,
)
    ensures
        0 <= capacity_from(avails, user, t, days),
    decreases days,
{
    if days > 0 {
        lemma_capacity_not_negative(avails, user, t, days - 1);
        lemma_daily_capacity_bounds(avails, user, t.plus_days(days - 1));
    }
}

/// Every second of the work is accounted for: what the chunks of an
/// allocation hold and what it leaves unscheduled add up to the work that
/// was to be planned. No chunk holds less than nothing, and more than the
/// spare hour stays unscheduled only where every week up to the horizon has
/// been used.
pub proof fn lemma_allocation_accounts(
    avails: Seq<Avail>,
    user: Seq<char>,
    dt: LocalTime,
    remaining: int,
    weeks: int,
)
    requires
        0 <= remaining,
        0 <= weeks,
    ensures
        total_secs(allocation(avails, user, dt, remaining, weeks)) + unscheduled(
            avails,
            user,
            dt,
            remaining,
            weeks,
        ) == remaining,
        0 <= unscheduled(avails, user, dt, remaining, weeks) <= remaining,
        forall|i: int|
            0 <= i < allocation(avails, user, dt, remaining, weeks).len() ==> 0 <= (
            #[trigger] allocation(avails, user, dt, remaining, weeks)[i]).1 <= remaining,
        allocation(avails, user, dt, remaining, weeks).len() <= weeks,
        unscheduled(avails, user, dt, remaining, weeks) > SPARE_SECS ==> allocation(
            avails,
            user,
            dt,
            remaining,
            weeks,
        ).len() == weeks,
    decreases weeks,
{
    let whole = allocation(avails, user, dt, remaining, weeks);
    if weeks <= 0 || remaining <= SPARE_SECS {
    } else {
        let cap = weekly_capacity(avails, user, dt);
        lemma_capacity_not_negative(avails, user, dt, working_days_remaining(dt));
        if cap > remaining {
            assert(whole.skip(1) =~= Seq::empty());
            assert(total_secs(whole.skip(1)) == 0);
            assert(total_secs(whole) == remaining);
        } else {
            let next = next_monday_spec(dt);
            let rest = allocation(avails, user, next, remaining - cap, weeks - 1);
            lemma_allocation_accounts(avails, user, next, remaining - cap, weeks - 1);
            assert(whole.skip(1) =~= rest);
            assert(total_secs(whole) == cap + total_secs(rest));
            assert forall|i: int| 0 <= i < whole.len() implies 0 <= (#[trigger] whole[i]).1
                <= remaining by {
                if i > 0 {
                    assert(whole[i] == rest[i - 1]);
                }
            }
        }
    }
}

/// The chunks of an allocation come in the order of time: the first starts
/// at `dt`, and each later one at the same time of day on the Monday after
/// the one before it. So none starts before `dt`, and the chunk at `i`
/// starts no later than `i` weeks after `dt`.
pub proof fn lemma_allocation_in_order(
    avails: Seq<Avail>,
    user: Seq<char>,
    dt: LocalTime,
    remaining: int,
    weeks: int,
)
    requires
        dt.wf(),
        0 <= weeks,
        dt.secs + weeks * WEEK_SECS <= MAX_SECS,
    ensures
        allocation(avails, user, dt, remaining, weeks).len() > 0 ==> allocation(
            avails,
            user,
            dt,
            remaining,
            weeks,
        )[0].0 == dt,
        forall|i: int|
            0 <= i < allocation(avails, user, dt, remaining, weeks).len() ==> {
                let at = (#[trigger] allocation(avails, user, dt, remaining, weeks)[i]).0;
                dt.secs <= at.secs <= dt.secs + i * WEEK_SECS && at.wf()
            },
        forall|i: int|
            0 < i < allocation(avails, user, dt, remaining, weeks).len() ==> {
                let before = allocation(avails, user, dt, remaining, weeks)[i - 1].0;
                let at = (#[trigger] allocation(avails, user, dt, remaining, weeks)[i]).0;
                at == next_monday_spec(before) && before.secs < at.secs && at.weekday_index() == 0
            },
    decreases weeks,
{
    let whole = allocation(avails, user, dt, remaining, weeks);
    if weeks <= 0 || remaining <= SPARE_SECS {
    } else {
        let cap = weekly_capacity(avails, user, dt);
        if cap > remaining {
        } else {
            let next = next_monday_spec(dt);
            let rest = allocation(avails, user, next, remaining - cap, weeks - 1);
            crate::time::lemma_plus_days(dt, 7 - dt.weekday_index());
            lemma_allocation_in_order(avails, user, next, remaining - cap, weeks - 1);
            assert forall|i: int| 0 <= i < whole.len() implies {
                let at = (#[trigger] whole[i]).0;
                dt.secs <= at.secs <= dt.secs + i * WEEK_SECS && at.wf()
            } by {
                if i > 0 {
                    assert(whole[i] == rest[i - 1]);
                }
            }
            assert forall|i: int| 0 < i < whole.len() implies {
                let before = whole[i - 1].0;
                let at = (#[trigger] whole[i]).0;
                at == next_monday_spec(before) && before.secs < at.secs && at.weekday_index() == 0
            } by {
                assert(whole[i] == rest[i - 1]);
                if i > 1 {
                    assert(whole[i - 1] == rest[i - 2]);
                }
            }
        }
    }
}

/// The whole seconds of the work loads that stand for `chunks` are the
/// seconds of the chunks.
pub proof fn lemma_planned_secs_of_chunks(
    user: Seq<char>,
    project: Seq<char>,
    chunks: Seq<(LocalTime, int)>,
)
    requires
        forall|i: int| 0 <= i < chunks.len() ==> 0 <= (#[trigger] chunks[i]).1 * 1000 <= u64::MAX,
    ensures
        planned_secs(loads_of(user, project, chunks)) == total_secs(chunks),
    decreases chunks.len(),
{
    if chunks.len() > 0 {
        let rest = chunks.skip(1);
        assert forall|i: int| 0 <= i < rest.len() implies 0 <= (#[trigger] rest[i]).1 * 1000
            <= u64::MAX by {
            assert(rest[i] == chunks[i + 1]);
        }
        lemma_planned_secs_of_chunks(user, project, rest);
        assert(loads_of(user, project, chunks).skip(1) =~= loads_of(user, project, rest));
        assert(0 <= chunks[0].1 * 1000 <= u64::MAX);
    }
}

/// Each chunk of an allocation but the last takes all that the user can do
/// in its week. The last takes no more than that, and where it takes less,
/// nothing is left unscheduled.
pub proof fn lemma_allocation_fills_weeks(
    avails: Seq<Avail>,
    user: Seq<char>,
    dt: LocalTime,
    remaining: int,
    weeks: int,
)
    ensures
        forall|i: int|
            0 <= i < allocation(avails, user, dt, remaining, weeks).len() ==> {
                let chunk = #[trigger] allocation(avails, user, dt, remaining, weeks)[i];
                &&& chunk.1 <= weekly_capacity(avails, user, chunk.0)
                &&& i + 1 < allocation(avails, user, dt, remaining, weeks).len() ==> chunk.1
                    == weekly_capacity(avails, user, chunk.0)
            },
        ({
            let whole = allocation(avails, user, dt, remaining, weeks);
            whole.len() > 0 && whole.last().1 < weekly_capacity(avails, user, whole.last().0)
                ==> unscheduled(avails, user, dt, remaining, weeks) == 0
        }),
    decreases weeks,
{
    let whole = allocation(avails, user, dt, remaining, weeks);
    if weeks <= 0 || remaining <= SPARE_SECS {
    } else {
        let cap = weekly_capacity(avails, user, dt);
        if cap > remaining {
        } else {
            let next = next_monday_spec(dt);
            let rest = allocation(avails, user, next, remaining - cap, weeks - 1);
            lemma_allocation_fills_weeks(avails, user, next, remaining - cap, weeks - 1);
            assert(whole =~= seq![(dt, cap)] + rest);
            assert forall|i: int| 0 <= i < whole.len() implies {
                let chunk = #[trigger] whole[i];
                &&& chunk.1 <= weekly_capacity(avails, user, chunk.0)
                &&& i + 1 < whole.len() ==> chunk.1 == weekly_capacity(avails, user, chunk.0)
            } by {
                if i > 0 {
                    assert(whole[i] == rest[i - 1]);
                }
            }
            if rest.len() > 0 {
                assert(whole.last() == rest.last());
            }
        }
    }
}

/// Where the logged work of a user on a project is no more than the amount
/// of the intent, the work loads planned for it and what is left unscheduled
/// add up to the difference. Unless the plan is cut short at the horizon,
/// what is left unscheduled is no more than the spare hour; and it is nothing
/// where the last work load is smaller than its week's capacity. Every work
/// load before the last is the whole capacity of its week.
pub proof fn lemma_project_loads_account(
    user: Seq<char>,
    project: Seq<char>,
    intent: Intent,
    avails: Seq<Avail>,
    dones: Seq<TaskRecord>,
    dt: LocalTime,
)
    requires
        done_secs(dones, user, project) <= intent.amount.secs(),
    ensures
        ({
            let left = intent.amount.secs() - done_secs(dones, user, project);
            let loads = project_loads(user, project, intent, avails, dones, dt);
            let rest = unscheduled(avails, user, dt, left, HORIZON_WEEKS as int);
            &&& planned_secs(loads) + rest == left
            &&& 0 <= rest
            &&& !project_cut_short(user, project, intent, avails, dones, dt) ==> left
                - planned_secs(loads) <= SPARE_SECS
            &&& loads.len() <= HORIZON_WEEKS
            &&& project_cut_short(user, project, intent, avails, dones, dt) ==> loads.len()
                == HORIZON_WEEKS
            &&& forall|i: int|
                0 <= i < loads.len() - 1 ==> (#[trigger] loads[i]).load.secs()
                    == weekly_capacity(avails, user, loads[i].start)
            &&& loads.len() > 0 ==> loads.last().load.secs() <= weekly_capacity(
                avails,
                user,
                loads.last().start,
            )
            &&& loads.len() > 0 && loads.last().load.secs() < weekly_capacity(
                avails,
                user,
                loads.last().start,
            ) ==> rest == 0
        }),
{
    lemma_done_secs_not_negative(dones, user, project);
    let left = intent.amount.secs() - done_secs(dones, user, project);
    if left > 0 {
        let chunks = allocation(avails, user, dt, left, HORIZON_WEEKS as int);
        let loads = project_loads(user, project, intent, avails, dones, dt);
        lemma_allocation_accounts(avails, user, dt, left, HORIZON_WEEKS as int);
        lemma_allocation_fills_weeks(avails, user, dt, left, HORIZON_WEEKS as int);
        assert forall|i: int| 0 <= i < chunks.len() implies 0 <= (#[trigger] chunks[i]).1 * 1000
            <= u64::MAX by {
            assert(chunks[i].1 <= left);
        }
        lemma_planned_secs_of_chunks(user, project, chunks);
        assert forall|i: int| 0 <= i < loads.len() implies (#[trigger] loads[i]).load.secs()
            == chunks[i].1 && loads[i].start == chunks[i].0 by {
            assert(0 <= chunks[i].1 * 1000 <= u64::MAX);
        }
        if loads.len() > 0 {
            assert(loads.last() == loads[loads.len() - 1]);
            assert(chunks.last() == chunks[chunks.len() - 1]);
        }
    }
}

/// Nobody has logged less than no work.
pub proof fn lemma_done_secs_not_negative(
    dones: Seq<TaskRecord>,
    user: Seq<char>,
    project: Seq<char>,
)
    ensures
        0 <= done_secs(dones, user, project),
    decreases dones.len(),
{
    if dones.len() > 0 {
        lemma_done_secs_not_negative(dones.drop_last(), user, project);
    }
}

/// The work loads planned for a user on a project come in the order of time.
/// The first starts at `dt`, the time the forecast is made at, so none starts
/// before it; each later one starts at the same time of day on the Monday
/// after the one before it, so the load at `i` starts no later than `i`
/// weeks after `dt`. Each is of that user on that project.
pub proof fn lemma_project_loads_in_order(
    user: Seq<char>,
    project: Seq<char>,
    intent: Intent,
    avails: Seq<Avail>,
    dones: Seq<TaskRecord>,
    dt: LocalTime,
)
    requires
        can_plan_from(dt),
    ensures
        ({
            let loads = project_loads(user, project, intent, avails, dones, dt);
            &&& loads.len() > 0 ==> loads[0].start == dt
            &&& forall|i: int|
                0 <= i < loads.len() ==> dt.secs <= (#[trigger] loads[i]).start.secs <= dt.secs + i
                    * WEEK_SECS && loads[i].user == user && loads[i].project == project
            &&& forall|i: int|
                0 < i < loads.len() ==> (#[trigger] loads[i]).start == next_monday_spec(
                    loads[i - 1].start,
                ) && loads[i - 1].start.secs < loads[i].start.secs
                    && loads[i].start.weekday_index() == 0
            &&& forall|i: int, j: int|
                0 <= i <= j < loads.len() ==> (#[trigger] loads[i]).start.secs <= (
                #[trigger] loads[j]).start.secs
        }),
{
    let left = intent.amount.secs() - done_secs(dones, user, project);
    let chunks = allocation(avails, user, dt, left, HORIZON_WEEKS as int);
    let loads = project_loads(user, project, intent, avails, dones, dt);
    lemma_allocation_in_order(avails, user, dt, left, HORIZON_WEEKS as int);
    if done_secs(dones, user, project) < intent.amount.secs() {
        assert(loads.len() == chunks.len());
        assert forall|i: int| 0 <= i < loads.len() implies (#[trigger] loads[i]).start
            == chunks[i].0 by {}
        assert forall|i: int| 0 < i < loads.len() implies (#[trigger] loads[i]).start
            == next_monday_spec(loads[i - 1].start) && loads[i - 1].start.secs
            < loads[i].start.secs && loads[i].start.weekday_index() == 0 by {
            assert(loads[i].start == chunks[i].0);
            assert(loads[i - 1].start == chunks[i - 1].0);
        }
        lemma_starts_rise(loads);
    }
}

/// Where each start is later than the one before it, a later load never
/// starts before an earlier one.
proof fn lemma_starts_rise(loads: Seq<WorkLoadView>)
    requires
        forall|i: int|
            0 < i < loads.len() ==> loads[i - 1].start.secs < (#[trigger] loads[i]).start.secs,
    ensures
        forall|i: int, j: int|
            0 <= i <= j < loads.len() ==> (#[trigger] loads[i]).start.secs <= (
            #[trigger] loads[j]).start.secs,
    decreases loads.len(),
{
    if loads.len() > 1 {
        let front = loads.drop_last();
        assert forall|i: int| 0 < i < front.len() implies front[i - 1].start.secs < (
        #[trigger] front[i]).start.secs by {
            assert(front[i] == loads[i]);
            assert(front[i - 1] == loads[i - 1]);
        }
        lemma_starts_rise(front);
        assert forall|i: int, j: int| 0 <= i <= j < loads.len() implies (
        #[trigger] loads[i]).start.secs <= (#[trigger] loads[j]).start.secs by {
            let n = loads.len() - 1;
            if j < n {
                assert(front[i] == loads[i] && front[j] == loads[j]);
            } else if i < n {
                assert(front[i] == loads[i] && front[n - 1] == loads[n - 1]);
                assert(loads[n - 1].start.secs < loads[n].start.secs);
            }
        }
    }
}

/// Every entry of a user's plan is a project of `sorted` that the user is
/// committed to, with the work loads planned for it. The lemma gives the
/// place of that project in `sorted`.
pub proof fn lemma_user_plan_entries(
    sorted: Seq<ProjectRecord>,
    user: Seq<char>,
    intents: Seq<Intent>,
    avails: Seq<Avail>,
    dones: Seq<TaskRecord>,
    now: SystemTime,
    dt: LocalTime,
    k: int,
) -> (at: int)
    requires
        0 <= k < user_plan(sorted, user, intents, avails, dones, now, dt).len(),
    ensures
        0 <= at < sorted.len(),
        k <= at,
        intent_of(intents, user, sorted[at].name@, now) matches Some(intent) && user_plan(
            sorted,
            user,
            intents,
            avails,
            dones,
            now,
            dt,
        )[k] == (
            sorted[at].name@,
            project_loads(user, sorted[at].name@, intent, avails, dones, dt),
        ),
    decreases sorted.len(),
{
    let front = sorted.drop_last();
    let earlier = user_plan(front, user, intents, avails, dones, now, dt);
    lemma_user_plan_len(front, user, intents, avails, dones, now, dt);
    if k < earlier.len() {
        let at = lemma_user_plan_entries(front, user, intents, avails, dones, now, dt, k);
        assert(front[at] == sorted[at]);
        at
    } else {
        sorted.len() - 1
    }
}

/// The entries of a user's plan are in the order of `sorted`: of two
/// entries, the project of the earlier one stands in `sorted` before the
/// project of the later one. The lemma gives the places of the two.
pub proof fn lemma_user_plan_keeps_order(
    sorted: Seq<ProjectRecord>,
    user: Seq<char>,
    intents: Seq<Intent>,
    avails: Seq<Avail>,
    dones: Seq<TaskRecord>,
    now: SystemTime,
    dt: LocalTime,
    k: int,
    l: int,
) -> (at: (int, int))
    requires
        0 <= k < l < user_plan(sorted, user, intents, avails, dones, now, dt).len(),
    ensures
        0 <= at.0 < at.1 < sorted.len(),
        user_plan(sorted, user, intents, avails, dones, now, dt)[k].0 == sorted[at.0].name@,
        user_plan(sorted, user, intents, avails, dones, now, dt)[l].0 == sorted[at.1].name@,
    decreases sorted.len(),
{
    let front = sorted.drop_last();
    let earlier = user_plan(front, user, intents, avails, dones, now, dt);
    lemma_user_plan_len(front, user, intents, avails, dones, now, dt);
    if l < earlier.len() {
        let at = lemma_user_plan_keeps_order(front, user, intents, avails, dones, now, dt, k, l);
        assert(front[at.0] == sorted[at.0] && front[at.1] == sorted[at.1]);
        at
    } else {
        let first = lemma_user_plan_entries(front, user, intents, avails, dones, now, dt, k);
        assert(front[first] == sorted[first]);
        (first, sorted.len() - 1)
    }
}

/// In a forecast no entry of a user is of a project that is due before the
/// project of an entry in front of it.
pub proof fn lemma_forecast_by_deadline(
    projects: Seq<ProjectRecord>,
    intents: Seq<Intent>,
    avails: Seq<Avail>,
    dones: Seq<TaskRecord>,
    now: SystemTime,
    offset: int,
    u: int,
    k: int,
    l: int,
) -> (due: (ProjectRecord, ProjectRecord))
    requires
        0 <= u < plan_spec(projects, intents, avails, dones, now, offset).len(),
        0 <= k < l < plan_spec(projects, intents, avails, dones, now, offset)[u].1.len(),
    ensures
        open_projects(projects).contains(due.0),
        open_projects(projects).contains(due.1),
        plan_spec(projects, intents, avails, dones, now, offset)[u].1[k].0 == due.0.name@,
        plan_spec(projects, intents, avails, dones, now, offset)[u].1[l].0 == due.1.name@,
        !deadline_before(due.1, due.0),
{
    let dt = start_of_plan(now, offset);
    let sorted = open_by_deadline(projects);
    let user = active_users(intents, now)[u];
    let at = lemma_user_plan_keeps_order(sorted, user, intents, avails, dones, now, dt, k, l);
    lemma_sorted_by_deadline(open_projects(projects));
    if deadline_before(sorted[at.1], sorted[at.0]) {
        lemma_due_first_comes_first(open_projects(projects), at.1, at.0);
    }
    assert(sorted.to_multiset().contains(sorted[at.0])) by {
        sorted.to_multiset_ensures();
        assert(sorted.contains(sorted[at.0]));
    }
    assert(sorted.to_multiset().contains(sorted[at.1])) by {
        sorted.to_multiset_ensures();
        assert(sorted.contains(sorted[at.1]));
    }
    open_projects(projects).to_multiset_ensures();
    (sorted[at.0], sorted[at.1])
}

/// A user's plan has no more entries than there are projects.
pub proof fn lemma_user_plan_len(
    sorted: Seq<ProjectRecord>,
    user: Seq<char>,
    intents: Seq<Intent>,
    avails: Seq<Avail>,
    dones: Seq<TaskRecord>,
    now: SystemTime,
    dt: LocalTime,
)
    ensures
        user_plan(sorted, user, intents, avails, dones, now, dt).len() <= sorted.len(),
    decreases sorted.len(),
{
    if sorted.len() > 0 {
        lemma_user_plan_len(sorted.drop_last(), user, intents, avails, dones, now, dt);
    }
}

/// The order of deadlines orders in ranks: no project is due before
/// itself or before one that is due before it, and a project that is due
/// before neither of two that follow one another is due before neither.
pub proof fn lemma_deadlines_rank()
    ensures
        ranks(due_first()),
{
    let before = due_first();
    assert forall|a: ProjectRecord, b: ProjectRecord| #[trigger] before(a, b) implies !before(
        b,
        a,
    ) by {}
    assert forall|a: ProjectRecord, b: ProjectRecord, c: ProjectRecord|
        !#[trigger] before(b, a) && !#[trigger] before(c, b) implies !before(c, a) by {}
}

/// Sorting by deadline gives the same projects, as many times each, and
/// none of them stands behind one that is due after it.
pub proof fn lemma_sorted_by_deadline(s: Seq<ProjectRecord>)
    ensures
        is_in_order(sorted_by_deadline(s), due_first()),
        sorted_by_deadline(s).to_multiset() == s.to_multiset(),
        sorted_by_deadline(s).len() == s.len(),
{
    lemma_deadlines_rank();
    lemma_in_order(s, due_first());
}

/// The order of deadlines places the project due first in front. Of two
/// projects with deadlines the one with the earlier deadline comes first, a
/// project with a deadline comes before any without, and of two without the
/// one started earlier comes first.
pub proof fn lemma_due_first_comes_first(s: Seq<ProjectRecord>, i: int, j: int)
    requires
        0 <= i < sorted_by_deadline(s).len(),
        0 <= j < sorted_by_deadline(s).len(),
        deadline_before(sorted_by_deadline(s)[i], sorted_by_deadline(s)[j]),
    ensures
        i < j,
{
    lemma_deadlines_rank();
    lemma_before_stands_in_front(s, due_first(), i, j);
}

/// Every work load of `plan` starts at a time that calendars can name.
pub open spec fn starts_wf(plan: Seq<(Seq<char>, Seq<(Seq<char>, Seq<WorkLoadView>)>)>) -> bool {
    forall|u: int, k: int, i: int|
        0 <= u < plan.len() && 0 <= k < plan[u].1.len() && 0 <= i < plan[u].1[k].1.len() ==> (
        #[trigger] plan[u].1[k].1[i]).start.wf()
}

/// Every work load of a forecast starts at a time that calendars can name.
pub proof fn lemma_plan_starts_wf(
    projects: Seq<ProjectRecord>,
    intents: Seq<Intent>,
    avails: Seq<Avail>,
    dones: Seq<TaskRecord>,
    now: SystemTime,
    offset: int,
)
    requires
        can_plan_from(start_of_plan(now, offset)),
    ensures
        starts_wf(plan_spec(projects, intents, avails, dones, now, offset)),
{
    let plan = plan_spec(projects, intents, avails, dones, now, offset);
    let dt = start_of_plan(now, offset);
    let sorted = open_by_deadline(projects);
    let users = active_users(intents, now);
    assert forall|u: int, k: int, i: int|
        0 <= u < plan.len() && 0 <= k < plan[u].1.len() && 0 <= i
            < plan[u].1[k].1.len() implies (#[trigger] plan[u].1[k].1[i]).start.wf() by {
        let user = users[u];
        let at = lemma_user_plan_entries(sorted, user, intents, avails, dones, now, dt, k);
        let intent = intent_of(intents, user, sorted[at].name@, now)->0;
        let left = intent.amount.secs() - done_secs(dones, user, sorted[at].name@);
        lemma_allocation_in_order(avails, user, dt, left, HORIZON_WEEKS as int);
        let chunks = allocation(avails, user, dt, left, HORIZON_WEEKS as int);
        assert(plan[u].1[k].1[i].start == chunks[i].0);
    }
}

/// Where the work of `user` on the project at `at` of `sorted` is cut short,
/// the plan of `user` over `sorted` is cut short.
proof fn lemma_cut_short_spreads(
    sorted: Seq<ProjectRecord>,
    user: Seq<char>,
    intents: Seq<Intent>,
    avails: Seq<Avail>,
    dones: Seq<TaskRecord>,
    now: SystemTime,
    dt: LocalTime,
    at: int,
)
    requires
        0 <= at < sorted.len(),
        intent_of(intents, user, sorted[at].name@, now) matches Some(intent) && project_cut_short(
            user,
            sorted[at].name@,
            intent,
            avails,
            dones,
            dt,
        ),
    ensures
        user_cut_short(sorted, user, intents, avails, dones, now, dt),
    decreases sorted.len(),
{
    if at < sorted.len() - 1 {
        let front = sorted.drop_last();
        assert(front[at] == sorted[at]);
        lemma_cut_short_spreads(front, user, intents, avails, dones, now, dt, at);
    }
}

/// Every entry of a forecast is of a user with an intent that still stands
/// on the project of the entry, and the work loads of the entry account for
/// what that intent leaves to do. Where the logged work has reached the
/// amount of the intent, the entry has no work loads. Else the work loads
/// add up to no more than the difference, and, unless the forecast is cut
/// short at the horizon, to no less than the difference but for the spare
/// hour.
pub proof fn lemma_forecast_accounts(
    projects: Seq<ProjectRecord>,
    intents: Seq<Intent>,
    avails: Seq<Avail>,
    dones: Seq<TaskRecord>,
    now: SystemTime,
    offset: int,
    u: int,
    k: int,
)
    requires
        0 <= u < plan_spec(projects, intents, avails, dones, now, offset).len(),
        0 <= k < plan_spec(projects, intents, avails, dones, now, offset)[u].1.len(),
    ensures
        ({
            let plan = plan_spec(projects, intents, avails, dones, now, offset);
            let user = plan[u].0;
            let project = plan[u].1[k].0;
            let loads = plan[u].1[k].1;
            let done = done_secs(dones, user, project);
            &&& intent_of(intents, user, project, now) matches Some(intent) && {
                let amount = intent.amount.secs();
                &&& done >= amount ==> loads.len() == 0
                &&& done <= amount ==> amount - SPARE_SECS <= done + planned_secs(loads) <= amount
                    || (plan_cut_short(projects, intents, avails, dones, now, offset) && done
                    + planned_secs(loads) < amount - SPARE_SECS)
            }
        }),
{
    let plan = plan_spec(projects, intents, avails, dones, now, offset);
    let dt = start_of_plan(now, offset);
    let sorted = open_by_deadline(projects);
    let users = active_users(intents, now);
    let user = users[u];
    let at = lemma_user_plan_entries(sorted, user, intents, avails, dones, now, dt, k);
    let project = sorted[at].name@;
    let intent = intent_of(intents, user, project, now)->0;
    assert(plan[u].1[k] == (project, project_loads(user, project, intent, avails, dones, dt)));
    if done_secs(dones, user, project) <= intent.amount.secs() {
        lemma_project_loads_account(user, project, intent, avails, dones, dt);
        if project_cut_short(user, project, intent, avails, dones, dt) {
            lemma_cut_short_spreads(sorted, user, intents, avails, dones, now, dt, at);
            assert(user_cut_short(sorted, users[u], intents, avails, dones, now, dt));
        }
    }
}

/// The users of a forecast are a set: each is named once, each is the user
/// of an intent that still stands, and the user of every such intent is
/// among them.
pub proof fn lemma_active_users_once(intents: Seq<Intent>, now: SystemTime)
    ensures
        active_users(intents, now).no_duplicates(),
        forall|u: Seq<char>|
            active_users(intents, now).contains(u) <==> exists|k: int|
                0 <= k < intents.len() && is_active(#[trigger] intents[k], now)
                    && intents[k].username@ == u,
    decreases intents.len(),
{
    let users = active_users(intents, now);
    if intents.len() > 0 {
        let front = intents.drop_last();
        let earlier = active_users(front, now);
        let last = intents.last();
        lemma_active_users_once(front, now);
        assert forall|u: Seq<char>| users.contains(u) implies exists|k: int|
            0 <= k < intents.len() && is_active(#[trigger] intents[k], now) && intents[k].username@
                == u by {
            if earlier.contains(u) {
                let k = choose|k: int|
                    0 <= k < front.len() && is_active(#[trigger] front[k], now)
                        && front[k].username@ == u;
                assert(intents[k] == front[k]);
            } else {
                let i = choose|i: int| 0 <= i < users.len() && users[i] == u;
                if i < earlier.len() {
                    assert(earlier[i] == u);
                }
                assert(is_active(intents[intents.len() - 1], now));
            }
        }
        assert forall|u: Seq<char>|
            (exists|k: int|
                0 <= k < intents.len() && is_active(#[trigger] intents[k], now)
                    && intents[k].username@ == u) implies users.contains(u) by {
            let k = choose|k: int|
                0 <= k < intents.len() && is_active(#[trigger] intents[k], now)
                    && intents[k].username@ == u;
            if k < front.len() {
                assert(front[k] == intents[k]);
                assert(earlier.contains(u));
                let i = choose|i: int| 0 <= i < earlier.len() && earlier[i] == u;
                assert(users[i] == u);
            } else if earlier.contains(u) {
                let i = choose|i: int| 0 <= i < earlier.len() && earlier[i] == u;
                assert(users[i] == u);
            } else {
                assert(users[users.len() - 1] == u);
            }
        }
        assert forall|i: int, j: int| 0 <= i < users.len() && 0 <= j < users.len() && i != j implies users[i]
            != users[j] by {
            if i < earlier.len() && j < earlier.len() {
                assert(earlier[i] == users[i] && earlier[j] == users[j]);
            } else if i < earlier.len() {
                assert(earlier[i] == users[i]);
                assert(earlier.contains(users[i]));
            } else if j < earlier.len() {
                assert(earlier[j] == users[j]);
                assert(earlier.contains(users[j]));
            }
        }
    }
}

/// No work load of a forecast starts before the time that the forecast is
/// made at, and the work loads of an entry come in the order of time: each
/// starts on the Monday after the one before it.
pub proof fn lemma_forecast_in_order(
    projects: Seq<ProjectRecord>,
    intents: Seq<Intent>,
    avails: Seq<Avail>,
    dones: Seq<TaskRecord>,
    now: SystemTime,
    offset: int,
    u: int,
    k: int,
)
    requires
        can_plan_from(start_of_plan(now, offset)),
        0 <= u < plan_spec(projects, intents, avails, dones, now, offset).len(),
        0 <= k < plan_spec(projects, intents, avails, dones, now, offset)[u].1.len(),
    ensures
        ({
            let loads = plan_spec(projects, intents, avails, dones, now, offset)[u].1[k].1;
            &&& forall|i: int|
                0 <= i < loads.len() ==> now.millis / 1000 <= (#[trigger] loads[i]).start.secs
            &&& forall|i: int, j: int|
                0 <= i <= j < loads.len() ==> (#[trigger] loads[i]).start.secs <= (
                #[trigger] loads[j]).start.secs
            &&& forall|i: int|
                0 < i < loads.len() ==> (#[trigger] loads[i]).start == next_monday_spec(
                    loads[i - 1].start,
                )
        }),
{
    let plan = plan_spec(projects, intents, avails, dones, now, offset);
    let dt = start_of_plan(now, offset);
    let sorted = open_by_deadline(projects);
    let user = active_users(intents, now)[u];
    let at = lemma_user_plan_entries(sorted, user, intents, avails, dones, now, dt, k);
    let project = sorted[at].name@;
    let intent = intent_of(intents, user, project, now)->0;
    assert(plan[u].1[k] == (project, project_loads(user, project, intent, avails, dones, dt)));
    lemma_project_loads_in_order(user, project, intent, avails, dones, dt);
}

/// Every work load among all the loads of a plan is one of a project of a
/// user of the plan.
pub proof fn lemma_all_loads_come_from_the_plan(
    plan: Seq<(String, Vec<(String, Vec<WorkLoad>)>)>,
    j: int,
) -> (at: (int, int, int))
    requires
        0 <= j < all_loads(plan).len(),
    ensures
        0 <= at.0 < plan.len(),
        0 <= at.1 < plan[at.0].1@.len(),
        0 <= at.2 < plan[at.0].1@[at.1].1@.len(),
        plan[at.0].1@[at.1].1@[at.2] == all_loads(plan)[j],
    decreases plan.len(),
{
    let front = all_loads(plan.drop_last());
    if j < front.len() {
        let at = lemma_all_loads_come_from_the_plan(plan.drop_last(), j);
        at
    } else {
        let at = lemma_loads_in_come_from_the_entries(plan.last().1@, j - front.len());
        (plan.len() - 1, at.0, at.1)
    }
}

/// Every work load among the loads of the projects of a user is one of a
/// project.
pub proof fn lemma_loads_in_come_from_the_entries(
    entries: Seq<(String, Vec<WorkLoad>)>,
    j: int,
) -> (at: (int, int))
    requires
        0 <= j < loads_in(entries).len(),
    ensures
        0 <= at.0 < entries.len(),
        0 <= at.1 < entries[at.0].1@.len(),
        entries[at.0].1@[at.1] == loads_in(entries)[j],
    decreases entries.len(),
{
    let front = loads_in(entries.drop_last());
    if j < front.len() {
        lemma_loads_in_come_from_the_entries(entries.drop_last(), j)
    } else {
        (entries.len() - 1, j - front.len())
    }
}

/// Where every work load of a plan starts at a time that calendars can
/// name, so does every work load that is found in it.
pub proof fn lemma_found_loads_start_wf(
    plan: WorkPlan,
    found: Seq<&WorkLoad>,
    test: spec_fn(WorkLoad) -> bool,
)
    requires
        starts_wf(plan.deep_view()),
        pointed(found) == all_loads(plan@).filter(test),
    ensures
        forall|i: int| 0 <= i < found.len() ==> (#[trigger] found[i])@.start.wf(),
{
    let all = all_loads(plan@);
    assert forall|i: int| 0 <= i < found.len() implies (#[trigger] found[i])@.start.wf() by {
        let w = *found[i];
        assert(pointed(found)[i] == w);
        all.lemma_filter_contains_rev(test, w);
        let j = choose|j: int| 0 <= j < all.len() && all[j] == w;
        let at = lemma_all_loads_come_from_the_plan(plan@, j);
        assert(plan.deep_view()[at.0].1[at.1].1[at.2] == w@);
    }
}

} // verus!
