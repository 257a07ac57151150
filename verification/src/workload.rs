//! The workload: the forecast week by week and month by month.
use crate::cal::{month_name, name_of_month};
use crate::html::{
    attr_value, attributed, body, classed, div, element_of, element_text, element_views, group,
    h2, h3, head, html, lemma_attr_value_is_some, lemma_with_attr, names_once, style,
    text_element, with_attr, with_class_added, with_doctype, wrap, ChildrenView, Element, ElementView, Empty,
};
use crate::timeline::css_view;
use crate::plan::{
    find_loads, next_monday, next_monday_spec, plan_cut_short, plan_in_zone, plan_spec, pointed,
    starts_wf, within,
    all_loads, lemma_found_loads_start_wf, WorkLoad, WorkLoadView, WorkPlan, HORIZON_WEEKS,
};
use crate::store::{Avail, Intent, ProjectRecord, TaskRecord};
use crate::text::{concat, decimal, u128_to_string, u64_to_string};
use crate::time::{LocalTime, SystemTime, MAX_SECS, WEEK_SECS};
use crate::util::{
    display_username, format_iso_date, iso_date, local_month, local_time, month_of, shown_name,
};
use vstd::prelude::*;

verus! {

/// The short names under which users are shown, in the order in which the
/// users first came up.
pub struct UserMap {
    umap: Vec<(String, String)>,
}

impl View for UserMap {
    type V = Seq<(Seq<char>, Seq<char>)>;

    closed spec fn view(&self) -> Seq<(Seq<char>, Seq<char>)> {
        self.umap@.map_values(|e: (String, String)| (e.0@, e.1@))
    }
}

/// The short name of `username` in `map`: the one it has there, or else
/// `user-` and the number of the next place in the map.
pub open spec fn alias_in(map: Seq<(Seq<char>, Seq<char>)>, username: Seq<char>) -> Seq<char> {
    match attr_value(map, username) {
        Some(alias) => alias,
        None => "user-"@ + decimal((map.len() + 1) as nat),
    }
}

/// The map `map` once `username` has been asked for: with the user at the
/// end where the map did not have them.
pub open spec fn with_alias(map: Seq<(Seq<char>, Seq<char>)>, username: Seq<char>) -> Seq<
    (Seq<char>, Seq<char>),
> {
    match attr_value(map, username) {
        Some(_) => map,
        None => map.push((username, alias_in(map, username))),
    }
}

/// The short names are a map from users to names, in the order in which
/// the users first came up. Once `username` has been asked for, it has the
/// short name that was given out, which it keeps, and every other user the
/// name they had; where no user stood twice, none does.
pub proof fn lemma_with_alias(
    map: Seq<(Seq<char>, Seq<char>)>,
    username: Seq<char>,
    other: Seq<char>,
)
    ensures
        attr_value(with_alias(map, username), username) == Some(alias_in(map, username)),
        alias_in(with_alias(map, username), username) == alias_in(map, username),
        other != username ==> attr_value(with_alias(map, username), other) == attr_value(
            map,
            other,
        ),
        names_once(map) ==> names_once(with_alias(map, username)),
{
    lemma_attr_value_is_some(map, username);
    if attr_value(map, username) is None {
        let alias = alias_in(map, username);
        assert(with_alias(map, username) == with_attr(map, username, alias));
        lemma_with_attr(map, username, alias, other);
    }
}

impl UserMap {
    /// A map without users.
    pub fn new() -> (map: UserMap)
        ensures
            map@ == Seq::<(Seq<char>, Seq<char>)>::empty(),
    {
        let map = UserMap { umap: Vec::new() };
        assert(map@ =~= Seq::empty());
        map
    }

    /// The short name of `username`, which the map has from now on.
    pub fn alias(&mut self, username: &str) -> (alias: String)
        ensures
            alias@ == alias_in(old(self)@, username@),
            final(self)@ == with_alias(old(self)@, username@),
    {
        let name = String::from_str(username);
        let ghost all = self@;
        let mut i: usize = 0;
        assert(all.skip(0) =~= all);
        while i < self.umap.len()
            invariant
                i <= self.umap.len(),
                name@ == username@,
                *self == *old(self),
                all == self@,
                attr_value(all, username@) == attr_value(all.skip(i as int), username@),
            decreases self.umap.len() - i,
        {
            proof {
                assert(all.skip(i as int)[0] == all[i as int]);
                assert(all.skip(i as int).skip(1) =~= all.skip(i + 1));
            }
            if self.umap[i].0 == name {
                return self.umap[i].1.clone();
            }
            i = i + 1;
        }
        let alias = concat("user-", u128_to_string(self.umap.len() as u128 + 1).as_str());
        self.umap.push((name, alias.clone()));
        assert(self@ =~= all.push((username@, alias@)));
        alias
    }
}

/// The whole hours of the work load `w`.
pub open spec fn load_hours(w: WorkLoadView) -> int {
    w.load.secs() / 3600
}

/// What the work load `w` of the user with the short name `alias` says:
/// the project, and a mark for each whole hour; its title is the day it
/// starts on and its hours.
pub open spec fn load_view(w: WorkLoadView, alias: Seq<char>) -> ElementView {
    attributed(
        classed(
            group(
                "div"@,
                seq![
                    classed(text_element("div"@, w.project), "project-name"@),
                    classed(
                        group(
                            "div"@,
                            Seq::new(
                                load_hours(w) as nat,
                                |i: int|
                                    classed(element_of("div"@, ChildrenView::Empty), "load-hour"@),
                            ),
                        ),
                        "load-value"@,
                    ),
                ],
            ),
            "load-wrapper "@ + alias,
        ),
        "title"@,
        iso_date(w.start.secs, w.start.offset) + " --- "@ + decimal(load_hours(w) as nat),
    )
}

/// The work load `work_load`, under the short name that `umap` has for
/// its user.
pub fn make_load(work_load: &WorkLoad, umap: &mut UserMap) -> (e: Element)
    requires
        work_load@.start.wf(),
    ensures
        e@ == load_view(work_load@, alias_in(old(umap)@, work_load@.user)),
        final(umap)@ == with_alias(old(umap)@, work_load@.user),
{
    let project = work_load.project();
    let start = format_iso_date(work_load.start());
    let hours = work_load.load().as_secs() / 3600;
    let mut title = start;
    title.append(" --- ");
    title.append(u64_to_string(hours).as_str());
    let mut load: Vec<Element> = Vec::new();
    let mut i: u64 = 0;
    while i < hours
        invariant
            i <= hours,
            load.len() == i,
            forall|j: int|
                0 <= j < i ==> (#[trigger] load@[j])@ == classed(
                    element_of("div"@, ChildrenView::Empty),
                    "load-hour"@,
                ),
        decreases hours - i,
    {
        load.push(div(Empty).class("load-hour"));
        i = i + 1;
    }
    proof {
        assert(element_views(load@) =~= Seq::new(
            load_hours(work_load@) as nat,
            |i: int| classed(element_of("div"@, ChildrenView::Empty), "load-hour"@),
        ));
    }
    let parts = vec![div(project).class("project-name"), div(load).class("load-value")];
    proof {
        assert(element_views(parts@) =~= seq![
            classed(text_element("div"@, work_load@.project), "project-name"@),
            classed(
                group(
                    "div"@,
                    Seq::new(
                        load_hours(work_load@) as nat,
                        |i: int| classed(element_of("div"@, ChildrenView::Empty), "load-hour"@),
                    ),
                ),
                "load-value"@,
            ),
        ]);
    }
    let class = concat("load-wrapper ", umap.alias(work_load.user()).as_str());
    div(parts).class(class.as_str()).set("title", title.as_str())
}

/// What the heading of the week that starts at `start` says: its day.
pub open spec fn date_view(start: LocalTime) -> ElementView {
    classed(text_element("h3"@, iso_date(start.secs, start.offset)), "date"@)
}

/// The heading of the week that starts at `start`.
pub fn make_date(start: &LocalTime) -> (e: Element)
    requires
        start.wf(),
    ensures
        e@ == date_view(*start),
{
    h3(format_iso_date(start)).class("date")
}

/// What the work loads `loads` say, one after the other, and the map of
/// short names that `map` has become by then.
pub open spec fn loads_view(loads: Seq<WorkLoadView>, map: Seq<(Seq<char>, Seq<char>)>) -> (
    Seq<ElementView>,
    Seq<(Seq<char>, Seq<char>)>,
)
    decreases loads.len(),
{
    if loads.len() == 0 {
        (Seq::empty(), map)
    } else {
        let before = loads_view(loads.drop_last(), map);
        let w = loads.last();
        (before.0.push(load_view(w, alias_in(before.1, w.user))), with_alias(before.1, w.user))
    }
}

/// What a week says: its day, the deadlines in it, and its work loads.
pub open spec fn week_view(start: LocalTime, loads: Seq<ElementView>, deadlines: ElementView) -> ElementView {
    classed(
        group("div"@, seq![date_view(start), deadlines, classed(group("div"@, loads), "load-list"@)]),
        "week-load"@,
    )
}

/// What the work loads that `loads` points at say.
pub open spec fn views_of(loads: Seq<&WorkLoad>) -> Seq<WorkLoadView> {
    loads.map_values(|w: &WorkLoad| w@)
}

/// The week that starts at `start` with the work loads `loads` and the
/// deadlines `deadlines`.
pub fn make_week(start: &LocalTime, loads: Vec<&WorkLoad>, umap: &mut UserMap, deadlines: Element) -> (e:
    Element)
    requires
        start.wf(),
        forall|i: int| 0 <= i < loads@.len() ==> (#[trigger] loads@[i])@.start.wf(),
    ensures
        e@ == week_view(*start, loads_view(views_of(loads@), old(umap)@).0, deadlines@),
        final(umap)@ == loads_view(views_of(loads@), old(umap)@).1,
{
    let ghost all = views_of(loads@);
    let ghost map0 = umap@;
    let mut items: Vec<Element> = Vec::new();
    let mut i: usize = 0;
    assert(all.take(0) =~= Seq::empty());
    while i < loads.len()
        invariant
            i <= loads.len(),
            all == views_of(loads@),
            forall|j: int| 0 <= j < loads@.len() ==> (#[trigger] loads@[j])@.start.wf(),
            element_views(items@) == loads_view(all.take(i as int), map0).0,
            umap@ == loads_view(all.take(i as int), map0).1,
        decreases loads.len() - i,
    {
        proof {
            assert(all.take(i + 1).drop_last() =~= all.take(i as int));
            assert(all.take(i + 1).last() == loads@[i as int]@);
        }
        let ghost before = element_views(items@);
        let item = make_load(loads[i], umap);
        items.push(item);
        assert(element_views(items@) =~= before.push(item@));
        i = i + 1;
    }
    proof {
        assert(all.take(i as int) =~= all);
    }
    let parts = vec![make_date(start), deadlines, div(items).class("load-list")];
    assert(element_views(parts@) =~= seq![
        date_view(*start),
        deadlines@,
        classed(group("div"@, loads_view(all, map0).0), "load-list"@),
    ]);
    div(parts).class("week-load")
}

/// What the users of the plan say, each once, in the order of the plan,
/// and the map of short names that `map` has become by then.
pub open spec fn users_view(users: Seq<Seq<char>>, map: Seq<(Seq<char>, Seq<char>)>) -> (
    Seq<ElementView>,
    Seq<(Seq<char>, Seq<char>)>,
)
    decreases users.len(),
{
    if users.len() == 0 {
        (Seq::empty(), map)
    } else {
        let before = users_view(users.drop_last(), map);
        let user = users.last();
        if users.drop_last().contains(user) {
            before
        } else {
            (
                before.0.push(
                    classed(text_element("div"@, shown_name(user)), alias_in(before.1, user)),
                ),
                with_alias(before.1, user),
            )
        }
    }
}

/// The names of the users of `plan`.
pub open spec fn plan_users(plan: Seq<(String, Vec<(String, Vec<WorkLoad>)>)>) -> Seq<Seq<char>> {
    plan.map_values(|e: (String, Vec<(String, Vec<WorkLoad>)>)| e.0@)
}

/// The users of `plan`, each once, under their short names.
pub fn make_users(plan: &WorkPlan, umap: &mut UserMap) -> (e: Element)
    ensures
        e@ == classed(group("div"@, users_view(plan_users(plan@), old(umap)@).0), "user-list"@),
        final(umap)@ == users_view(plan_users(plan@), old(umap)@).1,
{
    let ghost users = plan_users(plan@);
    let ghost map0 = umap@;
    let mut user_list: Vec<Element> = Vec::new();
    let mut i: usize = 0;
    assert(users.take(0) =~= Seq::empty());
    while i < plan.len()
        invariant
            i <= plan.len(),
            users == plan_users(plan@),
            element_views(user_list@) == users_view(users.take(i as int), map0).0,
            umap@ == users_view(users.take(i as int), map0).1,
        decreases plan.len() - i,
    {
        proof {
            assert(users.take(i + 1).drop_last() =~= users.take(i as int));
            assert(users.take(i + 1).last() == plan@[i as int].0@);
        }
        let username = &plan[i].0;
        let mut seen = false;
        let mut j: usize = 0;
        while j < i
            invariant
                j <= i < plan.len(),
                users == plan_users(plan@),
                users.len() == plan@.len(),
                username@ == plan@[i as int].0@,
                seen <==> users.take(j as int).contains(plan@[i as int].0@),
            decreases i - j,
        {
            let ghost shorter = users.take(j as int);
            let ghost longer = users.take(j + 1);
            let ghost user = plan@[i as int].0@;
            assert(longer[j as int] == plan@[j as int].0@);
            if plan[j].0 == *username {
                seen = true;
                assert(longer[j as int] == user);
            } else {
                proof {
                    if longer.contains(user) {
                        let w = choose|w: int| 0 <= w < longer.len() && #[trigger] longer[w] == user;
                        assert(w != j);
                        assert(shorter[w] == user);
                    }
                    if seen {
                        let w = choose|w: int|
                            0 <= w < shorter.len() && #[trigger] shorter[w] == user;
                        assert(longer[w] == user);
                    }
                }
            }
            j = j + 1;
        }
        if !seen {
            let ghost before = element_views(user_list@);
            let item = div(display_username(username.as_str())).class(
                umap.alias(username.as_str()).as_str(),
            );
            user_list.push(item);
            assert(element_views(user_list@) =~= before.push(item@));
        }
        i = i + 1;
    }
    proof {
        assert(users.take(i as int) =~= users);
    }
    div(user_list).class("user-list")
}

/// The point in time `t` lies in the stretch from `start` to `end`,
/// counted in whole seconds.
pub open spec fn lies_in(t: SystemTime, start: LocalTime, end: LocalTime) -> bool {
    start.secs <= t.millis / 1000 < end.secs
}

/// Whether the point in time `t` lies in the stretch from `start` to `end`.
pub fn in_window(t: &SystemTime, start: &LocalTime, end: &LocalTime) -> (b: bool)
    ensures
        b == lies_in(*t, *start, *end),
{
    let secs = (t.millis / 1000) as i128;
    secs >= start.secs as i128 && secs < end.secs as i128
}

/// The test whether a project is due in the stretch from `start` to `end`.
pub open spec fn due_in(start: LocalTime, end: LocalTime) -> spec_fn(ProjectRecord) -> bool {
    |p: ProjectRecord|
        match p.end_time {
            Some(t) => lies_in(t, start, end),
            None => false,
        }
}

/// What the deadline of the project `p` says on a clock `offset` seconds
/// ahead of UTC: the name of the project, with the day it is due as title.
pub open spec fn deadline_line(p: ProjectRecord, offset: i32) -> ElementView {
    attributed(
        classed(text_element("div"@, p.name@), "project-name"@),
        "title"@,
        iso_date((p.end_time->0.millis / 1000) as i64, offset),
    )
}

/// What the deadlines of the week from `start` to `end` say: the projects
/// of `projects` that are due in it, or that there are none.
pub open spec fn deadlines_view(projects: Seq<ProjectRecord>, start: LocalTime, end: LocalTime) -> ElementView {
    let due = projects.filter(due_in(start, end));
    if due.len() > 0 {
        classed(
            group("div"@, due.map_values(|p: ProjectRecord| deadline_line(p, start.offset))),
            "dealines"@,
        )
    } else {
        classed(element_of("div"@, ChildrenView::Empty), "deadlines empty"@)
    }
}

/// The deadlines of the week from `start` to `end`.
pub fn make_deadlines(projects: &Vec<ProjectRecord>, start: &LocalTime, end: &LocalTime) -> (e:
    Element)
    requires
        start.wf(),
        end.wf(),
    ensures
        e@ == deadlines_view(projects@, *start, *end),
{
    let mut lines: Vec<Element> = Vec::new();
    let mut i: usize = 0;
    proof {
        reveal(Seq::filter);
        assert(projects@.take(0).filter(due_in(*start, *end)) =~= Seq::empty());
    }
    while i < projects.len()
        invariant
            i <= projects.len(),
            start.wf(),
            end.wf(),
            element_views(lines@) == projects@.take(i as int).filter(
                due_in(*start, *end),
            ).map_values(|p: ProjectRecord| deadline_line(p, start.offset)),
        decreases projects.len() - i,
    {
        proof {
            reveal(Seq::filter);
            assert(projects@.take(i + 1).drop_last() =~= projects@.take(i as int));
            assert(projects@.take(i + 1).last() == projects@[i as int]);
        }
        let p = &projects[i];
        match p.end_time {
            Some(t) => {
                if in_window(&t, start, end) {
                    let due = local_time(&t, start.offset);
                    let ghost before = element_views(lines@);
                    let line = div(&p.name).class("project-name").set(
                        "title",
                        format_iso_date(&due).as_str(),
                    );
                    lines.push(line);
                    assert(element_views(lines@) =~= before.push(
                        deadline_line(*p, start.offset),
                    ));
                }
            },
            None => {},
        }
        assert(element_views(lines@) =~= projects@.take(i + 1).filter(
            due_in(*start, *end),
        ).map_values(|p: ProjectRecord| deadline_line(p, start.offset)));
        i = i + 1;
    }
    proof {
        assert(projects@.take(i as int) =~= projects@);
    }
    if lines.len() > 0 {
        div(lines).class("dealines")
    } else {
        div(Empty).class("deadlines empty")
    }
}

// ---------------------------------------------------------------------------
// The whole of it

/// What a plan says.
pub type PlanView = Seq<(Seq<char>, Seq<(Seq<char>, Seq<WorkLoadView>)>)>;

/// What the work loads of the projects in `entries` say, one project
/// after the other.
pub open spec fn entry_loads(entries: Seq<(Seq<char>, Seq<WorkLoadView>)>) -> Seq<WorkLoadView>
    decreases entries.len(),
{
    if entries.len() == 0 {
        Seq::empty()
    } else {
        entry_loads(entries.drop_last()) + entries.last().1
    }
}

/// What every work load of the plan `plan` says, one user after the other.
pub open spec fn plan_loads(plan: PlanView) -> Seq<WorkLoadView>
    decreases plan.len(),
{
    if plan.len() == 0 {
        Seq::empty()
    } else {
        plan_loads(plan.drop_last()) + entry_loads(plan.last().1)
    }
}

/// The test whether a work load starts at `start` or later, and before `end`.
pub open spec fn starting_within(start: LocalTime, end: LocalTime) -> spec_fn(WorkLoadView) -> bool {
    |w: WorkLoadView| start.secs <= w.start.secs < end.secs
}

/// What the work loads `loads` say.
pub open spec fn load_views(loads: Seq<WorkLoad>) -> Seq<WorkLoadView> {
    loads.map_values(|w: WorkLoad| w@)
}

/// What the entries `entries` say.
pub open spec fn entries_view(entries: Seq<(String, Vec<WorkLoad>)>) -> Seq<
    (Seq<char>, Seq<WorkLoadView>),
> {
    Seq::new(entries.len(), |i: int| entries[i].deep_view())
}

/// What the plan `plan` says.
pub open spec fn plan_view(plan: Seq<(String, Vec<(String, Vec<WorkLoad>)>)>) -> PlanView {
    Seq::new(plan.len(), |i: int| plan[i].deep_view())
}

/// The work loads of entries say what the loads of what the entries say are.
proof fn lemma_entry_loads(entries: Seq<(String, Vec<WorkLoad>)>)
    ensures
        load_views(crate::plan::loads_in(entries)) == entry_loads(entries_view(entries)),
    decreases entries.len(),
{
    if entries.len() > 0 {
        lemma_entry_loads(entries.drop_last());
        assert(entries_view(entries).drop_last() =~= entries_view(entries.drop_last()));
        assert(entries_view(entries).last().1 =~= load_views(entries.last().1@));
        assert(load_views(crate::plan::loads_in(entries)) =~= load_views(
            crate::plan::loads_in(entries.drop_last()),
        ) + load_views(entries.last().1@));
    } else {
        assert(load_views(crate::plan::loads_in(entries)) =~= Seq::empty());
    }
}

/// The work loads of a plan say what the loads of what the plan says are.
proof fn lemma_plan_loads(plan: Seq<(String, Vec<(String, Vec<WorkLoad>)>)>)
    ensures
        load_views(all_loads(plan)) == plan_loads(plan_view(plan)),
    decreases plan.len(),
{
    if plan.len() > 0 {
        lemma_plan_loads(plan.drop_last());
        lemma_entry_loads(plan.last().1@);
        assert(plan_view(plan).drop_last() =~= plan_view(plan.drop_last()));
        assert(plan_view(plan).last().1 =~= entries_view(plan.last().1@));
        assert(load_views(all_loads(plan)) =~= load_views(all_loads(plan.drop_last()))
            + load_views(crate::plan::loads_in(plan.last().1@)));
    } else {
        assert(load_views(all_loads(plan)) =~= Seq::empty());
    }
}

/// The work loads that are picked by where they start say what is picked
/// of what they say.
proof fn lemma_picked_loads(loads: Seq<WorkLoad>, start: LocalTime, end: LocalTime)
    ensures
        load_views(loads.filter(within(start, end))) == load_views(loads).filter(
            starting_within(start, end),
        ),
    decreases loads.len(),
{
    reveal(Seq::filter);
    if loads.len() > 0 {
        lemma_picked_loads(loads.drop_last(), start, end);
        assert(load_views(loads).drop_last() =~= load_views(loads.drop_last()));
        assert(load_views(loads).last() == loads.last()@);
        assert(load_views(loads.filter(within(start, end))) =~= load_views(loads).filter(
            starting_within(start, end),
        ));
    } else {
        assert(load_views(loads.filter(within(start, end))) =~= Seq::empty());
        assert(load_views(loads).filter(starting_within(start, end)) =~= Seq::empty());
    }
}

/// What a month says: its name, and its weeks.
pub open spec fn month_view(start: LocalTime, weeks: Seq<ElementView>) -> ElementView {
    classed(
        group(
            "div"@,
            seq![
                classed(
                    text_element("h2"@, name_of_month(local_month(start.secs, start.offset) as int)),
                    "month-name"@,
                ),
                classed(group("div"@, weeks), "month-load"@),
            ],
        ),
        "month-load-wrapper"@,
    )
}

/// The months of the workload from the week that starts at `start` up to
/// `max`, in no more than `fuel` weeks, after the months `months` and the
/// weeks `weeks` of a month that has not ended; with the map of short
/// names that `map` has become by then. A week runs to the Monday after
/// its start; a month ends with the week that runs into the next month or
/// up to `max`, and has the name of the month in which that week starts.
pub open spec fn months_from(
    plan: PlanView,
    projects: Seq<ProjectRecord>,
    max: LocalTime,
    start: LocalTime,
    map: Seq<(Seq<char>, Seq<char>)>,
    weeks: Seq<ElementView>,
    months: Seq<ElementView>,
    fuel: nat,
) -> (Seq<ElementView>, Seq<(Seq<char>, Seq<char>)>)
    decreases fuel,
{
    if start.secs >= max.secs || fuel == 0 {
        (months, map)
    } else {
        let end = next_monday_spec(start);
        let loads = loads_view(plan_loads(plan).filter(starting_within(start, end)), map);
        let all_weeks = weeks.push(week_view(start, loads.0, deadlines_view(projects, start, end)));
        if local_month(start.secs, start.offset) != local_month(end.secs, end.offset) || end.secs
            >= max.secs {
            months_from(
                plan,
                projects,
                max,
                end,
                loads.1,
                Seq::empty(),
                months.push(month_view(start, all_weeks)),
                (fuel - 1) as nat,
            )
        } else {
            months_from(plan, projects, max, end, loads.1, all_weeks, months, (fuel - 1) as nat)
        }
    }
}

/// The latest end of an availability among `avails`, and `now` where none
/// ends after it.
pub open spec fn latest_end(avails: Seq<Avail>, now: SystemTime) -> SystemTime
    decreases avails.len(),
{
    if avails.len() == 0 {
        now
    } else {
        let acc = latest_end(avails.drop_last(), now);
        if acc.millis >= avails.last().end_time.millis {
            acc
        } else {
            avails.last().end_time
        }
    }
}

/// Up to where the workload is shown: the latest end of an availability,
/// but no less than 361 days from `now`.
pub open spec fn workload_end(avails: Seq<Avail>, now: SystemTime, offset: i32) -> LocalTime {
    let max_avail: int = latest_end(avails, now).millis as int / 1000;
    let year: int = now.millis as int / 1000 + 361 * 86_400;
    LocalTime {
        secs: (if max_avail >= year {
            max_avail
        } else {
            year
        }) as i64,
        offset,
    }
}

/// From where the workload is shown: midnight of the day of `now`, on the
/// clock `offset` seconds ahead of UTC.
pub open spec fn workload_start(now: SystemTime, offset: i32) -> LocalTime {
    let dt = LocalTime { secs: (now.millis / 1000) as i64, offset };
    LocalTime { secs: (dt.day() * 86_400 - offset) as i64, offset }
}

/// The workload can be shown: the forecast can be made, no availability
/// ends beyond what calendars can name, and neither does the week in which
/// the workload ends.
pub open spec fn can_show_workload(avails: Seq<Avail>, now: SystemTime, offset: i32) -> bool {
    &&& -86_400 < offset < 86_400
    &&& now.millis / 1000 + HORIZON_WEEKS * WEEK_SECS <= MAX_SECS
    &&& forall|i: int|
        0 <= i < avails.len() ==> (#[trigger] avails[i]).end_time.millis / 1000 + WEEK_SECS
            <= MAX_SECS
}

/// What the workload says: the users of the forecast, and its months. Where
/// some work does not fit before the horizon of the forecast, the workload
/// has the class `truncated` besides.
pub open spec fn workload_view(
    projects: Seq<ProjectRecord>,
    intents: Seq<Intent>,
    avails: Seq<Avail>,
    dones: Seq<TaskRecord>,
    now: SystemTime,
    offset: i32,
) -> ElementView {
    let block = workload_block(projects, intents, avails, dones, now, offset);
    if plan_cut_short(projects, intents, avails, dones, now, offset as int) {
        with_class_added(block, "truncated"@)
    } else {
        block
    }
}

/// The users of the forecast, and its months.
pub open spec fn workload_block(
    projects: Seq<ProjectRecord>,
    intents: Seq<Intent>,
    avails: Seq<Avail>,
    dones: Seq<TaskRecord>,
    now: SystemTime,
    offset: i32,
) -> ElementView {
    let plan = plan_spec(projects, intents, avails, dones, now, offset as int);
    let max = workload_end(avails, now, offset);
    let start = workload_start(now, offset);
    let months = months_from(
        plan,
        projects,
        max,
        start,
        Seq::empty(),
        Seq::empty(),
        Seq::empty(),
        (max.secs - start.secs) as nat,
    );
    classed(
        group(
            "div"@,
            seq![
                classed(
                    group(
                        "div"@,
                        users_view(plan.map_values(|e: (Seq<char>, Seq<(Seq<char>, Seq<WorkLoadView>)>)| e.0), months.1).0,
                    ),
                    "user-list"@,
                ),
                classed(group("div"@, months.0), "months"@),
            ],
        ),
        "workload-block"@,
    )
}

/// The latest end of an availability among `avails`, and `now` where none
/// ends after it.
fn max_avail(avails: &Vec<Avail>, now: SystemTime) -> (t: SystemTime)
    ensures
        t == latest_end(avails@, now),
        t.millis >= now.millis,
        forall|i: int| 0 <= i < avails@.len() ==> (#[trigger] avails@[i]).end_time.millis <= t.millis,
        t == now || exists|i: int| 0 <= i < avails@.len() && (#[trigger] avails@[i]).end_time == t,
{
    let mut acc = now;
    let mut i: usize = 0;
    while i < avails.len()
        invariant
            i <= avails.len(),
            acc == latest_end(avails@.take(i as int), now),
            acc.millis >= now.millis,
            forall|j: int| 0 <= j < i ==> (#[trigger] avails@[j]).end_time.millis <= acc.millis,
            acc == now || exists|j: int| 0 <= j < i && (#[trigger] avails@[j]).end_time == acc,
        decreases avails.len() - i,
    {
        proof {
            assert(avails@.take(i + 1).drop_last() =~= avails@.take(i as int));
            assert(avails@.take(i + 1).last() == avails@[i as int]);
        }
        if acc.millis < avails[i].end_time.millis {
            acc = avails[i].end_time;
        }
        i = i + 1;
    }
    proof {
        assert(avails@.take(i as int) =~= avails@);
    }
    acc
}

/// The workload at `now` on a clock `offset` seconds ahead of UTC: the
/// forecast for `projects`, `intents`, `avails` and `dones`, week by week
/// and month by month, from today to the end of the last availability, and
/// for 361 days at least.
pub fn render_workload(
    projects: &Vec<ProjectRecord>,
    intents: &Vec<Intent>,
    avails: &Vec<Avail>,
    dones: &Vec<TaskRecord>,
    now: SystemTime,
    offset: i32,
) -> (e: Element)
    requires
        can_show_workload(avails@, now, offset),
    ensures
        e@ == workload_view(projects@, intents@, avails@, dones@, now, offset),
{
    let forecast = plan_in_zone(projects, intents, avails, dones, now, offset);
    let truncated = forecast.truncated;
    let plan = forecast.plan;
    let ghost pv = plan_spec(projects@, intents@, avails@, dones@, now, offset as int);
    let latest = max_avail(avails, now);
    let dt = local_time(&now, offset);
    let year_secs: i64 = dt.secs + 361 * 86_400;
    let max_secs: i64 = (latest.millis / 1000) as i64;
    let max = LocalTime {
        secs: if max_secs >= year_secs {
            max_secs
        } else {
            year_secs
        },
        offset,
    };
    let mut start = LocalTime { secs: dt.day_number() * 86_400 - offset as i64, offset };
    assert(start == workload_start(now, offset));
    assert(max == workload_end(avails@, now, offset));
    let mut months: Vec<Element> = Vec::new();
    let mut weeks: Vec<Element> = Vec::new();
    let mut umap = UserMap::new();
    let ghost fuel0 = (max.secs - start.secs) as nat;
    let ghost mut fuel = fuel0;
    let ghost start0 = start;
    proof {
        lemma_plan_loads(plan@);
        assert(plan_view(plan@) =~= plan.deep_view());
        assert(element_views(months@) =~= Seq::empty());
        assert(element_views(weeks@) =~= Seq::empty());
    }
    while start.secs < max.secs
        invariant
            start.wf(),
            max.wf(),
            max.secs + WEEK_SECS <= MAX_SECS,
            start.offset == offset,
            fuel >= max.secs - start.secs,
            pv == plan.deep_view(),
            starts_wf(plan.deep_view()),
            load_views(all_loads(plan@)) == plan_loads(pv),
            months_from(
                pv,
                projects@,
                max,
                start0,
                Seq::empty(),
                Seq::empty(),
                Seq::empty(),
                fuel0,
            ) == months_from(
                pv,
                projects@,
                max,
                start,
                umap@,
                element_views(weeks@),
                element_views(months@),
                fuel,
            ),
        decreases
                if start.secs < max.secs {
                    max.secs - start.secs
                } else {
                    0
                },
    {
        let end = next_monday(&start);
        let loads = find_loads(&plan, &start, &end);
        proof {
            lemma_found_loads_start_wf(plan, loads@, within(start, end));
            lemma_picked_loads(all_loads(plan@), start, end);
            assert(views_of(loads@) =~= load_views(pointed(loads@)));
        }
        let deadlines = make_deadlines(projects, &start, &end);
        let ghost had_weeks = element_views(weeks@);
        let week = make_week(&start, loads, &mut umap, deadlines);
        weeks.push(week);
        assert(element_views(weeks@) =~= had_weeks.push(week@));
        if month_of(&start) != month_of(&end) || end.secs >= max.secs {
            let ghost had_months = element_views(months@);
            let parts = vec![h2(month_name(&start)).class("month-name"), div(weeks).class("month-load")];
            assert(element_views(parts@) =~= seq![
                classed(
                    text_element("h2"@, name_of_month(local_month(start.secs, start.offset) as int)),
                    "month-name"@,
                ),
                classed(group("div"@, had_weeks.push(week@)), "month-load"@),
            ]);
            let month = div(parts).class("month-load-wrapper");
            months.push(month);
            assert(element_views(months@) =~= had_months.push(month@));
            weeks = Vec::new();
            assert(element_views(weeks@) =~= Seq::empty());
        }
        proof {
            fuel = (fuel - 1) as nat;
        }
        start = end;
    }
    let users = make_users(&plan, &mut umap);
    proof {
        assert(plan_users(plan@) =~= pv.map_values(
            |e: (Seq<char>, Seq<(Seq<char>, Seq<WorkLoadView>)>)| e.0,
        ));
    }
    let parts = vec![users, div(months).class("months")];
    assert(element_views(parts@) =~= seq![
        users@,
        classed(group("div"@, element_views(months@)), "months"@),
    ]);
    let block = div(parts).class("workload-block");
    if truncated {
        block.add_class("truncated")
    } else {
        block
    }
}

/// The text of the page of the workload: the workload under the style
/// sheet `css`, or `Error` where there is no workload to show.
pub open spec fn workload_page_text(css: Seq<char>, workload: Option<ElementView>) -> Seq<char> {
    "<!DOCTYPE html>\n"@ + element_text(
        group(
            "html"@,
            seq![
                wrap("head"@, css_view(css)),
                wrap(
                    "body"@,
                    match workload {
                        Some(e) => e,
                        None => text_element("div"@, "Error"@),
                    },
                ),
            ],
        ),
    )
}

/// The page of the workload `workload` under the style sheet `css`.
pub fn workload_page(css: &str, workload: Option<Element>) -> (page: String)
    ensures
        page@ == workload_page_text(
            css@,
            match workload {
                Some(e) => Some(e@),
                None => None,
            },
        ),
{
    let sheet = style(css).set("type", "text/css");
    let content = match workload {
        Some(e) => body(e),
        None => body(div("Error")),
    };
    let parts = vec![head(sheet), content];
    assert(element_views(parts@) =~= seq![
        wrap("head"@, css_view(css@)),
        wrap(
            "body"@,
            match workload {
                Some(e) => e@,
                None => text_element("div"@, "Error"@),
            },
        ),
    ]);
    with_doctype(html(parts))
}

} // verus!
