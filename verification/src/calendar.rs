//! The calendar of a project: its tasks day by day, week by week and month
//! by month.
use crate::cal::{
    day_of_week, falling_into, month_name, name_of_month, pointed_events, weekday_name, CalRange,
    Calendar, CalendarEvent, CalendarItem, CalendarItemView, Stop, Walk,
};
use crate::html::{
    body, classed, div, element_of, element_text, element_views, group, h1, head, hidden, html,
    link, linked, no_display, span, style, text_element, with_doctype, wrap, ChildrenView,
    Element, ElementView, Empty, NodeView,
};
use crate::store::{ProjectRecord, StoreError, StoreResult, TaskRecord};
use crate::text::{
    concat, contains_line, decimal, distinct, i64_to_string, join, joined, signed_decimal,
    strings_view, u128_to_string, u64_to_string,
};
use crate::time::{LocalTime, SystemTime, MAX_SECS};
use crate::timeline::css_view;
use crate::util::{
    day_of, display_username, dur, human_duration, humanized, local_day, local_month, local_time,
    local_year, shown_name, stored, ts, year_of,
};
use vstd::prelude::*;

verus! {

/// No calendar is shown beyond this many years, months, weeks and days.
pub const MAX_ITEMS: u64 = 1_000_000;

/// What the task `rec` says in a day: who did it and what it was, and how
/// long it took.
pub open spec fn task_view(rec: TaskRecord) -> ElementView {
    classed(
        group(
            "div"@,
            seq![
                text_element("div"@, shown_name(rec.username@) + "("@ + rec.task@ + ")"@),
                text_element(
                    "div"@,
                    humanized(rec.end_time.elapsed_since(rec.start_time).millis),
                ),
            ],
        ),
        "task"@,
    )
}

/// What the tasks that `tasks` points at say.
pub open spec fn tasks_view(tasks: Seq<&TaskRecord>) -> Seq<ElementView> {
    tasks.map_values(|t: &TaskRecord| task_view(*t))
}

/// Every task that `tasks` points at has times that the store can hold.
pub open spec fn tasks_wf(tasks: Seq<&TaskRecord>) -> bool {
    forall|i: int| 0 <= i < tasks.len() ==> (#[trigger] tasks[i]).wf()
}

/// The tasks `tasks`, each with who did it and how long it took.
pub fn format_tasklist(tasks: &Vec<&TaskRecord>) -> (list: Vec<Element>)
    requires
        tasks_wf(tasks@),
    ensures
        element_views(list@) == tasks_view(tasks@),
{
    let mut list: Vec<Element> = Vec::new();
    let mut i: usize = 0;
    while i < tasks.len()
        invariant
            i <= tasks.len(),
            tasks_wf(tasks@),
            list.len() == i,
            forall|j: int| 0 <= j < i ==> (#[trigger] list@[j])@ == task_view(*tasks@[j]),
        decreases tasks.len() - i,
    {
        let rec = tasks[i];
        assert(rec.wf());
        let mut who = display_username(rec.username.as_str());
        who.append("(");
        who.append(rec.task.as_str());
        who.append(")");
        let parts = vec![div(who), div(human_duration(rec.end_time.since_or_zero(&rec.start_time)))];
        assert(element_views(parts@) =~= seq![
            text_element("div"@, shown_name(rec.username@) + "("@ + rec.task@ + ")"@),
            text_element("div"@, humanized(rec.end_time.elapsed_since(rec.start_time).millis)),
        ]);
        list.push(div(parts).set("class", "task"));
        i = i + 1;
    }
    assert(element_views(list@) =~= tasks_view(tasks@));
    list
}

/// What the day `day` says: its name and its number in the month, and its
/// tasks; `class` tells whether it belongs to the month shown.
pub open spec fn day_view(day: LocalTime, tasks: Seq<&TaskRecord>, class: Seq<char>) -> ElementView {
    classed(
        group(
            "div"@,
            seq![
                classed(
                    text_element(
                        "div"@,
                        weekday_name(day.weekday_index()) + " "@ + decimal(
                            local_day(day.secs, day.offset) as nat,
                        ),
                    ),
                    "weekday"@,
                ),
                classed(group("div"@, tasks_view(tasks)), "task-list"@),
            ],
        ),
        "day "@ + class,
    )
}

/// The day `day` with the tasks `tasks`.
pub fn make_day(day: &LocalTime, tasks: &Vec<&TaskRecord>, class: &str) -> (e: Element)
    requires
        day.wf(),
        tasks_wf(tasks@),
    ensures
        e@ == day_view(*day, tasks@, class@),
{
    let mut name = String::from_str(day_of_week(day));
    name.append(" ");
    name.append(u64_to_string(day_of(day) as u64).as_str());
    let parts = vec![
        div(name).set("class", "weekday"),
        div(format_tasklist(tasks)).set("class", "task-list"),
    ];
    assert(element_views(parts@) =~= seq![
        classed(
            text_element(
                "div"@,
                weekday_name(day.weekday_index()) + " "@ + decimal(
                    local_day(day.secs, day.offset) as nat,
                ),
            ),
            "weekday"@,
        ),
        classed(group("div"@, tasks_view(tasks@)), "task-list"@),
    ]);
    div(parts).set("class", concat("day ", class).as_str())
}

/// The name of the month of `d` and its year.
pub open spec fn month_and_year_text(d: LocalTime) -> Seq<char> {
    name_of_month(local_month(d.secs, d.offset) as int) + " "@ + signed_decimal(
        local_year(d.secs, d.offset) as int,
    )
}

/// The name of the month of `d` and its year.
pub fn month_and_year(d: &LocalTime) -> (text: String)
    requires
        d.wf(),
    ensures
        text@ == month_and_year_text(*d),
{
    let mut text = String::from_str(month_name(d));
    text.append(" ");
    text.append(i64_to_string(year_of(d) as i64).as_str());
    text
}

/// What lasts from a point in time to another.
pub trait Interval {
    /// When it starts.
    spec fn starts(&self) -> SystemTime;

    /// When it ends.
    spec fn ends(&self) -> SystemTime;

    /// When it starts.
    fn start(&self) -> (t: SystemTime)
        ensures
            t == self.starts(),
    ;

    /// When it ends.
    fn end(&self) -> (t: SystemTime)
        ensures
            t == self.ends(),
    ;
}

impl Interval for TaskRecord {
    open spec fn starts(&self) -> SystemTime {
        self.start_time
    }

    open spec fn ends(&self) -> SystemTime {
        self.end_time
    }

    fn start(&self) -> (t: SystemTime) {
        self.start_time
    }

    fn end(&self) -> (t: SystemTime) {
        self.end_time
    }
}

impl<'a> Interval for &'a TaskRecord {
    open spec fn starts(&self) -> SystemTime {
        self.start_time
    }

    open spec fn ends(&self) -> SystemTime {
        self.end_time
    }

    fn start(&self) -> (t: SystemTime) {
        self.start_time
    }

    fn end(&self) -> (t: SystemTime) {
        self.end_time
    }
}

impl<'a, 'b> Interval for &'b CalendarEvent<&'a TaskRecord> {
    open spec fn starts(&self) -> SystemTime {
        self.data.start_time
    }

    open spec fn ends(&self) -> SystemTime {
        self.data.end_time
    }

    fn start(&self) -> (t: SystemTime) {
        self.data.start_time
    }

    fn end(&self) -> (t: SystemTime) {
        self.data.end_time
    }
}

impl<'a> Interval for CalendarEvent<&'a TaskRecord> {
    open spec fn starts(&self) -> SystemTime {
        self.data.start_time
    }

    open spec fn ends(&self) -> SystemTime {
        self.data.end_time
    }

    fn start(&self) -> (t: SystemTime) {
        self.data.start_time
    }

    fn end(&self) -> (t: SystemTime) {
        self.data.end_time
    }
}

/// The one that ends later; the first where both end together.
pub fn max<'a, I: Interval>(a: &'a I, b: &'a I) -> (later: &'a I)
    ensures
        later == if a.ends().millis >= b.ends().millis {
            a
        } else {
            b
        },
{
    if a.end().millis >= b.end().millis {
        a
    } else {
        b
    }
}

/// The one that starts earlier; the first where both start together.
pub fn min<'a, I: Interval>(a: &'a I, b: &'a I) -> (earlier: &'a I)
    ensures
        earlier == if a.starts().millis <= b.starts().millis {
            a
        } else {
            b
        },
{
    if a.start().millis <= b.start().millis {
        a
    } else {
        b
    }
}

/// The earliest start among `events`, where none starts before `first`.
pub open spec fn earliest_start<I: Interval>(events: Seq<I>, first: SystemTime) -> SystemTime
    decreases events.len(),
{
    if events.len() == 0 {
        first
    } else {
        let acc = earliest_start(events.drop_last(), first);
        if acc.millis <= events.last().starts().millis {
            acc
        } else {
            events.last().starts()
        }
    }
}

/// The latest end among `events`, where none ends after `last`.
pub open spec fn latest_end<I: Interval>(events: Seq<I>, last: SystemTime) -> SystemTime
    decreases events.len(),
{
    if events.len() == 0 {
        last
    } else {
        let acc = latest_end(events.drop_last(), last);
        if acc.millis >= events.last().ends().millis {
            acc
        } else {
            events.last().ends()
        }
    }
}

/// What the link to the table of `events` says: it leads to the tasks
/// from just before the earliest start to the latest end. Where there are
/// no events there is nothing to show.
pub open spec fn csv_link_view<I: Interval>(base_url_tabular: Seq<char>, events: Seq<I>) -> ElementView {
    if events.len() == 0 {
        hidden()
    } else {
        linked(
            "csv"@,
            "/"@ + base_url_tabular + "/"@ + signed_decimal(
                stored(earliest_start(events, events.first().starts()).millis) - 1,
            ) + "/"@ + signed_decimal(
                stored(latest_end(events, events.last().ends()).millis),
            ),
        )
    }
}

/// The link to the table of `events`.
pub fn make_csv_link<I: Interval>(base_url_tabular: &str, events: &Vec<I>) -> (e: Element)
    ensures
        e@ == csv_link_view(base_url_tabular@, events@),
{
    if events.len() == 0 {
        return no_display();
    }
    let mut first = &events[0];
    let mut last = &events[events.len() - 1];
    let mut i: usize = 0;
    while i < events.len()
        invariant
            i <= events.len(),
            events.len() > 0,
            first.starts() == earliest_start(events@.take(i as int), events@.first().starts()),
            last.ends() == latest_end(events@.take(i as int), events@.last().ends()),
        decreases events.len() - i,
    {
        proof {
            assert(events@.take(i + 1).drop_last() =~= events@.take(i as int));
            assert(events@.take(i + 1).last() == events@[i as int]);
        }
        first = min(first, &events[i]);
        last = max(last, &events[i]);
        i = i + 1;
    }
    proof {
        assert(events@.take(i as int) =~= events@);
    }
    let mut href = concat("/", base_url_tabular);
    href.append("/");
    href.append(i64_to_string(ts(&first.start()) - 1).as_str());
    href.append("/");
    href.append(i64_to_string(ts(&last.end())).as_str());
    link("csv", href.as_str())
}

// ---------------------------------------------------------------------------
// Putting the days together

/// What the element `e` says once `child` is its last child.
pub open spec fn appended(e: ElementView, child: ElementView) -> ElementView {
    if e.void {
        e
    } else {
        ElementView { children: e.children.push(NodeView::HTML(child)), ..e }
    }
}

/// The calendar as far as it is put together: the months so far, the month
/// that is being filled, the week that is being filled, and whether a month
/// and a week have come up yet.
pub struct Shelf {
    pub main: ElementView,
    pub month: ElementView,
    pub week: ElementView,
    pub had_month: bool,
    pub had_week: bool,
}

/// The calendar before anything is put into it.
pub open spec fn empty_shelf() -> Shelf {
    Shelf {
        main: classed(element_of("div"@, ChildrenView::Empty), "calendar"@),
        month: classed(element_of("div"@, ChildrenView::Empty), "month initial"@),
        week: classed(element_of("div"@, ChildrenView::Empty), "week initial"@),
        had_month: false,
        had_week: false,
    }
}

/// The tasks of the events `events`.
pub open spec fn tasks_of(events: Seq<CalendarEvent<&TaskRecord>>) -> Seq<&TaskRecord> {
    events.map_values(|e: CalendarEvent<&TaskRecord>| e.data)
}

/// What the heading of the month that starts at `d` says. With a table to
/// link to, it names the year too and links to the table of the events of
/// the month.
pub open spec fn month_head(
    d: LocalTime,
    events: Seq<CalendarEvent<&TaskRecord>>,
    tabular: Option<Seq<char>>,
) -> ElementView {
    match tabular {
        None => classed(
            wrap("div"@, text_element("h1"@, name_of_month(local_month(d.secs, d.offset) as int))),
            "month"@,
        ),
        Some(base) => classed(
            group(
                "div"@,
                seq![
                    text_element("h1"@, month_and_year_text(d)),
                    csv_link_view(
                        base,
                        events.filter(falling_into(d, crate::cal::end_of_month(d))),
                    ),
                ],
            ),
            "month"@,
        ),
    }
}

/// What an empty week that starts at `d` says. With a table to link to, its
/// class tells the day of the month on which it starts.
pub open spec fn week_head(d: LocalTime, tabular: Option<Seq<char>>) -> ElementView {
    match tabular {
        None => classed(element_of("div"@, ChildrenView::Empty), "week"@),
        Some(_) => classed(
            element_of("div"@, ChildrenView::Empty),
            "week start-day-"@ + decimal(local_day(d.secs, d.offset) as nat),
        ),
    }
}

/// The calendar `shelf` once what is handed out at `stop` is put into it.
/// The first month and the first week only take the place of what was
/// there. A later month closes the month before it, and a later week the
/// week before it. A day goes into the week that is being filled.
pub open spec fn shelve(
    shelf: Shelf,
    stop: Stop,
    events: Seq<CalendarEvent<&TaskRecord>>,
    tabular: Option<Seq<char>>,
) -> Shelf {
    match stop {
        Stop::Year(_) => shelf,
        Stop::Month(d) => if !shelf.had_month {
            Shelf { month: month_head(d, events, tabular), had_month: true, ..shelf }
        } else {
            Shelf {
                main: appended(
                    shelf.main,
                    if tabular is Some {
                        appended(shelf.month, shelf.week)
                    } else {
                        shelf.month
                    },
                ),
                month: month_head(d, events, tabular),
                week: classed(element_of("div"@, ChildrenView::Empty), "week empty"@),
                ..shelf
            }
        },
        Stop::Week(d) => if !shelf.had_week {
            Shelf { had_week: true, ..shelf }
        } else {
            Shelf {
                month: appended(shelf.month, shelf.week),
                week: week_head(d, tabular),
                ..shelf
            }
        },
        Stop::EmptyDay(d, end) => Shelf {
            week: appended(
                shelf.week,
                day_view(d, tasks_of(events.filter(falling_into(d, end))), "out-month"@),
            ),
            ..shelf
        },
        Stop::Day(d, end) => Shelf {
            week: appended(
                shelf.week,
                day_view(d, tasks_of(events.filter(falling_into(d, end))), "in-month"@),
            ),
            ..shelf
        },
    }
}

/// The calendar `shelf` once everything is put into it that the walk
/// `walk` hands out, in a calendar that ends at `end`, up to `fuel` things.
pub open spec fn shelved(
    walk: Walk,
    end: LocalTime,
    events: Seq<CalendarEvent<&TaskRecord>>,
    tabular: Option<Seq<char>>,
    shelf: Shelf,
    fuel: nat,
) -> Shelf
    decreases fuel,
{
    if fuel == 0 {
        shelf
    } else {
        let moved = walk.advance(end);
        match moved.0 {
            None => shelf,
            Some(stop) => shelved(
                moved.1,
                end,
                events,
                tabular,
                shelve(shelf, stop, events, tabular),
                (fuel - 1) as nat,
            ),
        }
    }
}

/// The events that the tasks `recs` make on a clock `offset` seconds ahead
/// of UTC: each from the second it starts in to the second it ends in.
pub open spec fn events_of<'a>(recs: Seq<TaskRecord>, offset: i32) -> Seq<
    CalendarEvent<&'a TaskRecord>,
> {
    Seq::new(
        recs.len(),
        |i: int|
            CalendarEvent {
                start_time: LocalTime { secs: (recs[i].start_time.millis / 1000) as i64, offset },
                end_time: LocalTime { secs: (recs[i].end_time.millis / 1000) as i64, offset },
                data: &recs[i],
            },
    )
}

/// The tasks `recs` can be put on a calendar: their times are times that
/// the store can hold and that calendars can name.
pub open spec fn can_show_tasks(recs: Seq<TaskRecord>) -> bool {
    forall|i: int|
        0 <= i < recs.len() ==> (#[trigger] recs[i]).wf() && recs[i].start_time.millis / 1000
            <= MAX_SECS && recs[i].end_time.millis / 1000 <= MAX_SECS
}

/// What the calendar of the tasks `recs` says.
pub open spec fn cal_project_view(recs: Seq<TaskRecord>, tabular: Option<Seq<char>>, offset: i32) -> ElementView {
    let events = events_of(recs, offset);
    let far_ahead = LocalTime {
        secs: (crate::cal::FAR_AHEAD - offset) as i64,
        offset,
    };
    let far_back = LocalTime { secs: (crate::cal::FAR_BACK - offset) as i64, offset };
    let shelf = match Walk::from(crate::cal::earliest(events, far_ahead)) {
        None => empty_shelf(),
        Some(walk) => shelved(
            walk,
            crate::cal::latest(events, far_back),
            events,
            tabular,
            empty_shelf(),
            MAX_ITEMS as nat,
        ),
    };
    appended(shelf.main, appended(shelf.month, shelf.week))
}

/// The tasks of the events that `events` points at.
fn event_tasks<'a>(events: &Vec<&CalendarEvent<&'a TaskRecord>>) -> (tasks: Vec<&'a TaskRecord>)
    ensures
        tasks@ == tasks_of(pointed_events(events@)),
{
    let mut tasks: Vec<&'a TaskRecord> = Vec::new();
    let mut i: usize = 0;
    while i < events.len()
        invariant
            i <= events.len(),
            tasks.len() == i,
            forall|j: int| 0 <= j < i ==> (#[trigger] tasks@[j]) == events@[j].data,
        decreases events.len() - i,
    {
        tasks.push(events[i].data);
        i = i + 1;
    }
    assert(tasks@ =~= tasks_of(pointed_events(events@)));
    tasks
}

/// Every task among those of events that are picked from the events of
/// tasks with times that the store can hold has such times.
proof fn lemma_picked_tasks_wf(
    recs: Seq<TaskRecord>,
    offset: i32,
    test: spec_fn(CalendarEvent<&TaskRecord>) -> bool,
)
    requires
        can_show_tasks(recs),
    ensures
        tasks_wf(tasks_of(events_of(recs, offset).filter(test))),
{
    let events = events_of(recs, offset);
    let picked = events.filter(test);
    assert forall|i: int| 0 <= i < picked.len() implies (#[trigger] tasks_of(picked)[i]).wf() by {
        events.lemma_filter_contains_rev(test, picked[i]);
        let j = choose|j: int| 0 <= j < events.len() && events[j] == picked[i];
        assert(recs[j].wf());
    }
}

/// The calendar of the tasks `recs` on a clock `offset` seconds ahead of
/// UTC: months of weeks of days, each day with its tasks. With
/// `base_url_tabular`, each month links to the table of its tasks.
pub fn cal_project(recs: &Vec<TaskRecord>, base_url_tabular: Option<&str>, offset: i32) -> (e:
    Element)
    requires
        -86_400 < offset < 86_400,
        can_show_tasks(recs@),
    ensures
        e@ == cal_project_view(
            recs@,
            match base_url_tabular {
                Some(base) => Some(base@),
                None => None,
            },
            offset,
        ),
{
    let ghost tabular: Option<Seq<char>> = match base_url_tabular {
        Some(base) => Some(base@),
        None => None,
    };
    let mut cal: Calendar<&TaskRecord> = Calendar::new(offset);
    let mut i: usize = 0;
    assert(cal.events() =~= events_of(recs@.take(0), offset));
    while i < recs.len()
        invariant
            i <= recs.len(),
            -86_400 < offset < 86_400,
            can_show_tasks(recs@),
            cal.wf(),
            cal.offset() == offset,
            cal.events() == events_of(recs@.take(i as int), offset),
        decreases recs.len() - i,
    {
        let t = &recs[i];
        assert(recs@[i as int].wf());
        let ghost before = cal.events();
        cal.push(local_time(&t.start_time, offset), local_time(&t.end_time, offset), t);
        assert(cal.events() =~= events_of(recs@.take(i + 1), offset));
        i = i + 1;
    }
    assert(recs@.take(i as int) =~= recs@);
    let ghost events = cal.events();
    let mut main = div(Empty).set("class", "calendar");
    let mut cur_month = div(Empty).set("class", "month initial");
    let mut cur_week = div(Empty).set("class", "week initial");
    let mut had_month = false;
    let mut had_week = false;
    match cal.iter() {
        None => {},
        Some(walk) => {
            let mut it = walk;
            let ghost walk0 = it.walk;
            let ghost end = cal.ends();
            let mut fuel: u64 = MAX_ITEMS;
            let mut going = true;
            while going && fuel > 0
                invariant
                    it.wf(),
                    it.calendar == &cal,
                    cal.wf(),
                    events == cal.events(),
                    events == events_of(recs@, offset),
                    end == cal.ends(),
                    can_show_tasks(recs@),
                    tabular == match base_url_tabular {
                        Some(base) => Some(base@),
                        None => None,
                    },
                    shelved(walk0, end, events, tabular, empty_shelf(), MAX_ITEMS as nat) == if going {
                        shelved(
                            it.walk,
                            end,
                            events,
                            tabular,
                            Shelf {
                                main: main@,
                                month: cur_month@,
                                week: cur_week@,
                                had_month,
                                had_week,
                            },
                            fuel as nat,
                        )
                    } else {
                        Shelf {
                            main: main@,
                            month: cur_month@,
                            week: cur_week@,
                            had_month,
                            had_week,
                        }
                    },
                decreases
                        if going {
                            fuel + 1
                        } else {
                            0
                        },
            {
                let ghost shelf = Shelf {
                    main: main@,
                    month: cur_month@,
                    week: cur_week@,
                    had_month,
                    had_week,
                };
                let ghost moved = it.walk.advance(end);
                match it.next() {
                    None => {
                        going = false;
                    },
                    Some(item) => {
                        match item {
                            CalendarItem::Year(_) => {},
                            CalendarItem::Month(d) => {
                                let head = match base_url_tabular {
                                    None => div(h1(month_name(&d))).set("class", "month"),
                                    Some(base) => {
                                        let month_events = cal.find(
                                            d,
                                            crate::cal::find_end_of_month(d),
                                        );
                                        let link = make_csv_link(base, &month_events);
                                        proof {
                                            lemma_link_of_pointed(base@, month_events@);
                                        }
                                        let parts = vec![h1(month_and_year(&d)), link];
                                        assert(element_views(parts@) =~= seq![
                                            text_element("h1"@, month_and_year_text(d)),
                                            csv_link_view(
                                                base@,
                                                events.filter(
                                                    falling_into(d, crate::cal::end_of_month(d)),
                                                ),
                                            ),
                                        ]);
                                        div(parts).set("class", "month")
                                    },
                                };
                                if !had_month {
                                    cur_month = head;
                                    had_month = true;
                                } else {
                                    match base_url_tabular {
                                        None => {
                                            main = main.append(cur_month);
                                        },
                                        Some(_) => {
                                            main = main.append(cur_month.append(cur_week));
                                        },
                                    }
                                    cur_month = head;
                                    cur_week = div(Empty).set("class", "week empty");
                                }
                            },
                            CalendarItem::Week(d) => {
                                if !had_week {
                                    had_week = true;
                                } else {
                                    cur_month = cur_month.append(cur_week);
                                    cur_week = match base_url_tabular {
                                        None => div(Empty).set("class", "week"),
                                        Some(_) => div(Empty).set(
                                            "class",
                                            concat(
                                                "week start-day-",
                                                u64_to_string(day_of(&d) as u64).as_str(),
                                            ).as_str(),
                                        ),
                                    };
                                }
                            },
                            CalendarItem::EmptyDay(d, found) => {
                                proof {
                                    let day_end = match moved.0->0 {
                                        Stop::EmptyDay(_, day_end) => day_end,
                                        _ => d,
                                    };
                                    lemma_picked_tasks_wf(recs@, offset, falling_into(d, day_end));
                                }
                                cur_week = cur_week.append(
                                    make_day(&d, &event_tasks(&found), "out-month"),
                                );
                            },
                            CalendarItem::Day(d, found) => {
                                proof {
                                    let day_end = match moved.0->0 {
                                        Stop::Day(_, day_end) => day_end,
                                        _ => d,
                                    };
                                    lemma_picked_tasks_wf(recs@, offset, falling_into(d, day_end));
                                }
                                cur_week = cur_week.append(
                                    make_day(&d, &event_tasks(&found), "in-month"),
                                );
                            },
                        }
                        fuel = fuel - 1;
                        proof {
                            let now = Shelf {
                                main: main@,
                                month: cur_month@,
                                week: cur_week@,
                                had_month,
                                had_week,
                            };
                            assert(now == shelve(shelf, moved.0->0, events, tabular));
                            if fuel == 0 {
                                assert(shelved(it.walk, end, events, tabular, now, 0) == now);
                            }
                        }
                    },
                }
            }
        },
    }
    main.append(cur_month.append(cur_week))
}

/// The link to the table of the events that `found` points at is the link
/// to the table of those events.
proof fn lemma_link_of_pointed(
    base: Seq<char>,
    found: Seq<&CalendarEvent<&TaskRecord>>,
)
    ensures
        csv_link_view(base, found) == csv_link_view(base, pointed_events(found)),
{
    let events = pointed_events(found);
    if found.len() > 0 {
        lemma_ends_of_pointed(found, found.first().starts(), found.last().ends());
    }
}

/// The earliest start and the latest end among the events that `found`
/// points at are those among the events themselves.
proof fn lemma_ends_of_pointed(
    found: Seq<&CalendarEvent<&TaskRecord>>,
    first: SystemTime,
    last: SystemTime,
)
    ensures
        earliest_start(found, first) == earliest_start(pointed_events(found), first),
        latest_end(found, last) == latest_end(pointed_events(found), last),
    decreases found.len(),
{
    if found.len() > 0 {
        lemma_ends_of_pointed(found.drop_last(), first, last);
        assert(pointed_events(found).drop_last() =~= pointed_events(found.drop_last()));
    }
}

// ---------------------------------------------------------------------------
// The page

/// The names of the projects of the tasks `recs`, each once.
pub open spec fn project_names(recs: Seq<TaskRecord>) -> Seq<Seq<char>> {
    distinct(recs.map_values(|rec: TaskRecord| rec.project@))
}

/// The milliseconds that the tasks `recs` took, added up.
pub open spec fn done_millis(recs: Seq<TaskRecord>) -> int
    decreases recs.len(),
{
    if recs.len() == 0 {
        0
    } else {
        done_millis(recs.drop_last()) + stored(
            recs.last().end_time.elapsed_since(recs.last().start_time).millis,
        )
    }
}

/// The whole hours set aside for the project that the store has handed
/// out as `info`: none where it has handed out none, or nothing is set
/// aside.
pub open spec fn available_hours(info: StoreResult<ProjectRecord>) -> int {
    match info {
        Err(_) => 0,
        Ok(rec) => match rec.provision {
            None => 0,
            Some(d) => stored(d.millis) / 3_600_000,
        },
    }
}

/// What the line of the summary says that is called `label` and shows
/// `hours` hours.
pub open spec fn hours_line(label: Seq<char>, hours: Seq<char>) -> ElementView {
    group("div"@, seq![text_element("span"@, label), text_element("span"@, hours + " hours"@)])
}

/// What the summary of the calendar says: the hours done and the hours
/// set aside, and, with a table to link to, the link to the table of all
/// the tasks.
pub open spec fn summary_view(
    recs: Seq<TaskRecord>,
    available: int,
    tabular: Option<Seq<char>>,
) -> ElementView {
    let lines = seq![
        hours_line("Done: "@, decimal((done_millis(recs) / 3_600_000) as nat)),
        hours_line("Avail: "@, signed_decimal(available)),
    ];
    classed(
        group(
            "div"@,
            match tabular {
                None => lines,
                Some(base) => lines.push(csv_link_view(base, recs)),
            },
        ),
        "summary"@,
    )
}

/// The text of the page of the calendar of the tasks `recs`, under the
/// style sheet `css`: the names of the projects, the summary, and the
/// calendar.
pub open spec fn cal_page_text(
    recs: Seq<TaskRecord>,
    available: int,
    css: Seq<char>,
    tabular: Option<Seq<char>>,
    offset: i32,
) -> Seq<char> {
    "<!DOCTYPE html>\n"@ + element_text(
        group(
            "html"@,
            seq![
                wrap("head"@, css_view(css)),
                group(
                    "body"@,
                    seq![
                        text_element("h1"@, joined(project_names(recs), ", "@)),
                        summary_view(recs, available, tabular),
                        cal_project_view(recs, tabular, offset),
                    ],
                ),
            ],
        ),
    )
}

/// A line of the summary.
fn make_hours_line(label: &str, hours: String) -> (e: Element)
    ensures
        e@ == hours_line(label@, hours@),
{
    let mut text = hours;
    text.append(" hours");
    let parts = vec![span(label), span(text)];
    assert(element_views(parts@) =~= seq![
        text_element("span"@, label@),
        text_element("span"@, hours@ + " hours"@),
    ]);
    div(parts)
}

/// The page of the calendar of the tasks `recs` of a project for which
/// `available` hours are set aside, under the style sheet `css`, on a
/// clock `offset` seconds ahead of UTC. With `base_url_tabular`, the page
/// links to the tables of the tasks.
pub fn cal_page(
    recs: &Vec<TaskRecord>,
    available: i64,
    css: &str,
    base_url_tabular: Option<&str>,
    offset: i32,
) -> (page: String)
    requires
        -86_400 < offset < 86_400,
        can_show_tasks(recs@),
    ensures
        page@ == cal_page_text(
            recs@,
            available as int,
            css@,
            match base_url_tabular {
                Some(base) => Some(base@),
                None => None,
            },
            offset,
        ),
{
    let ghost tabular: Option<Seq<char>> = match base_url_tabular {
        Some(base) => Some(base@),
        None => None,
    };
    let ghost all_names = recs@.map_values(|rec: TaskRecord| rec.project@);
    let mut names: Vec<String> = Vec::new();
    let mut done: u128 = 0;
    let mut i: usize = 0;
    assert(strings_view(names@) =~= distinct(all_names.take(0)));
    while i < recs.len()
        invariant
            i <= recs.len(),
            all_names == recs@.map_values(|rec: TaskRecord| rec.project@),
            strings_view(names@) == distinct(all_names.take(i as int)),
            done == done_millis(recs@.take(i as int)),
            done <= i * i64::MAX,
        decreases recs.len() - i,
    {
        proof {
            assert(all_names.take(i + 1).drop_last() =~= all_names.take(i as int));
            assert(all_names.take(i + 1).last() == recs@[i as int].project@);
            assert(recs@.take(i + 1).drop_last() =~= recs@.take(i as int));
            assert(recs@.take(i + 1).last() == recs@[i as int]);
        }
        let rec = &recs[i];
        if !contains_line(&names, &rec.project) {
            let ghost before = strings_view(names@);
            names.push(rec.project.clone());
            assert(strings_view(names@) =~= before.push(rec.project@));
        }
        done = done + dur(&rec.end_time.since_or_zero(&rec.start_time)) as u128;
        i = i + 1;
    }
    proof {
        assert(all_names.take(i as int) =~= all_names);
        assert(recs@.take(i as int) =~= recs@);
    }
    let cal_element = cal_project(recs, base_url_tabular, offset);
    let title = h1(join(&names, ", "));
    let done_line = make_hours_line("Done: ", u128_to_string(done / 3_600_000));
    let avail_line = make_hours_line("Avail: ", i64_to_string(available));
    let subtitle = match base_url_tabular {
        None => {
            let lines = vec![done_line, avail_line];
            assert(element_views(lines@) =~= seq![
                hours_line("Done: "@, decimal((done_millis(recs@) / 3_600_000) as nat)),
                hours_line("Avail: "@, signed_decimal(available as int)),
            ]);
            div(lines).set("class", "summary")
        },
        Some(base) => {
            let lines = vec![done_line, avail_line, make_csv_link(base, recs)];
            assert(element_views(lines@) =~= seq![
                hours_line("Done: "@, decimal((done_millis(recs@) / 3_600_000) as nat)),
                hours_line("Avail: "@, signed_decimal(available as int)),
            ].push(csv_link_view(base@, recs@)));
            div(lines).set("class", "summary")
        },
    };
    let sheet = style(css).set("type", "text/css");
    let content = vec![title, subtitle, cal_element];
    assert(element_views(content@) =~= seq![
        text_element("h1"@, joined(project_names(recs@), ", "@)),
        summary_view(recs@, available as int, tabular),
        cal_project_view(recs@, tabular, offset),
    ]);
    let parts = vec![head(sheet), body(content)];
    assert(element_views(parts@) =~= seq![
        wrap("head"@, css_view(css@)),
        group("body"@, element_views(content@)),
    ]);
    with_doctype(html(parts))
}

/// The whole hours set aside for the project that the store has handed
/// out as `info`.
pub fn hours_available(info: &StoreResult<ProjectRecord>) -> (hours: i64)
    ensures
        hours == available_hours(*info),
{
    match info {
        Err(_) => 0,
        Ok(rec) => match rec.provision {
            None => 0,
            Some(d) => dur(&d) / 3_600_000,
        },
    }
}

/// What the page of the calendar of the project `project` in the room
/// `token` says: the calendar, or what the store reports where it does not
/// hand out the tasks.
pub open spec fn cal_text(
    token: Seq<char>,
    project: Seq<char>,
    info: StoreResult<ProjectRecord>,
    recs: StoreResult<Vec<TaskRecord>>,
    css: Seq<char>,
    offset: i32,
) -> Seq<char> {
    match recs {
        Err(err) => "Store Error: "@ + err.message(),
        Ok(recs) => cal_page_text(
            recs@,
            available_hours(info),
            css,
            Some(token + "/tabular/"@ + project),
            offset,
        ),
    }
}

/// The page of the calendar of the project `project` in the room `token`.
/// `info` is what the store has on the project, `recs` its tasks.
pub fn cal(
    token: &str,
    project: &str,
    info: &StoreResult<ProjectRecord>,
    recs: &StoreResult<Vec<TaskRecord>>,
    css: &str,
    offset: i32,
) -> (page: String)
    requires
        -86_400 < offset < 86_400,
        recs matches Ok(rs) ==> can_show_tasks(rs@),
    ensures
        page@ == cal_text(token@, project@, *info, *recs, css@, offset),
{
    match recs {
        Err(err) => concat("Store Error: ", err.to_string().as_str()),
        Ok(rs) => {
            let mut base_url_tabular = concat(token, "/tabular/");
            base_url_tabular.append(project);
            cal_page(rs, hours_available(info), css, Some(base_url_tabular.as_str()), offset)
        },
    }
}

} // verus!
