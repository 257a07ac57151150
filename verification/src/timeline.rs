//! The timeline: every project with its deadline, its hours and its notes.
use crate::html::{
    attributed, body, classed, details, div, element_of, element_text, element_views, em, group,
    h1, h2, head, hidden, html, link, linked, no_display, paragraph, span, style, summary,
    text_element, with_class_added, with_doctype, wrap, ChildrenView, Element, ElementView,
    IntoChildren, NodeView,
};
use crate::store::{AggregatedTaskRecord, NoteRecord, ProjectRecord, StoreResult};
use crate::text::{concat, decimal, strings_view, u128_to_string, u64_to_string};
use crate::time::{Duration, SystemTime};
use crate::util::{display_username, shown_name};
use core::cmp::Ordering;
use vstd::prelude::*;

verus! {

/// A project with the work done on it and its notes.
pub type TimelineProject = (ProjectRecord, Duration, Vec<NoteRecord>);

/// How two optional times stand to each other where a time that is there
/// comes before one that is not, and two that are not are the same.
pub open spec fn some_first(a: Option<SystemTime>, b: Option<SystemTime>) -> int {
    match (a, b) {
        (None, None) => 0,
        (Some(_), None) => -1,
        (None, Some(_)) => 1,
        (Some(x), Some(y)) => if x.millis < y.millis {
            -1
        } else if x.millis > y.millis {
            1
        } else {
            0
        },
    }
}

/// The number that stands for an ordering: -1 for less, 1 for greater.
pub open spec fn sign(o: Ordering) -> int {
    match o {
        Ordering::Less => -1,
        Ordering::Equal => 0,
        Ordering::Greater => 1,
    }
}

/// Orders two optional times: one that is there comes before one that is
/// not, and two that are not are the same.
pub fn order_some_first(a: Option<SystemTime>, b: Option<SystemTime>) -> (o: Ordering)
    ensures
        sign(o) == some_first(a, b),
{
    match (a, b) {
        (None, None) => Ordering::Equal,
        (Some(_), None) => Ordering::Less,
        (None, Some(_)) => Ordering::Greater,
        (Some(x), Some(y)) => {
            if x.millis < y.millis {
                Ordering::Less
            } else if x.millis > y.millis {
                Ordering::Greater
            } else {
                Ordering::Equal
            }
        },
    }
}

/// Orders two projects by deadline: the one due first is the lesser, and
/// one with a deadline is less than one without.
pub fn cmp_by_deadline(a: &TimelineProject, b: &TimelineProject) -> (o: Ordering)
    ensures
        sign(o) == some_first(a.0.end_time, b.0.end_time),
{
    order_some_first(a.0.end_time, b.0.end_time)
}

/// Orders two projects by completion: one that is not completed is less
/// than one that is, and of two that are the one completed last is the
/// lesser.
pub fn cmp_by_completion(a: &TimelineProject, b: &TimelineProject) -> (o: Ordering)
    ensures
        sign(o) == some_first(a.0.completed, b.0.completed).spec_neg(),
{
    match order_some_first(a.0.completed, b.0.completed) {
        Ordering::Less => Ordering::Greater,
        Ordering::Equal => Ordering::Equal,
        Ordering::Greater => Ordering::Less,
    }
}

/// The quotient of `a` by `b`, rounded to the nearest integer; a remainder of
/// exactly one half rounds down.
pub open spec fn round_div_spec(a: int, b: int) -> int {
    if a % b <= b / 2 {
        a / b
    } else {
        a / b + 1
    }
}

/// Divides `a` by `b` and rounds to the nearest integer, halves going down.
pub fn round_div(a: u64, b: u64) -> (q: u64)
    requires
        b > 0,
    ensures
        q == round_div_spec(a as int, b as int),
{
    let p: u64 = a / b;
    let m: u64 = a % b;
    if m <= b / 2 {
        p
    } else {
        assert(p < u64::MAX) by (nonlinear_arith)
            requires
                p == a as int / b as int,
                a as int % b as int > b as int / 2,
                b > 0,
                a <= u64::MAX,
        {
            assert(b >= 2);
            assert(a as int / b as int <= a as int / 2);
        }
        p + 1
    }
}

/// The hours in `d`, rounded to the nearest hour.
pub open spec fn hours(d: Duration) -> int {
    (d.millis / 3600 + 500) / 1000
}

/// The hours in `d`, rounded to the nearest hour.
pub fn to_hour(d: Duration) -> (h: u128)
    ensures
        h == hours(d),
{
    let m: u128 = d.as_millis() as u128 / 3600;
    let m2: u128 = m + 500;
    m2 / 1000
}

/// The hours in `d` as text, with an `h` behind.
pub fn format_hour(d: Duration) -> (text: String)
    ensures
        text@ == decimal(hours(d) as nat) + "h"@,
{
    let mut text = u128_to_string(to_hour(d));
    text.append("h");
    text
}

/// A project has fewer hours than this, or it is more than small.
pub const LOW: u64 = 50;

/// A project has fewer hours than this, or it is more than medium.
pub const MEDIUM: u64 = 250;

/// A project has fewer hours than this, or it is huge.
pub const HIGH: u64 = 1000;

/// How large a project is.
#[derive(Clone, Copy, Debug, PartialEq, Eq, Structural)]
pub enum ProjectSize {
    Small,
    Medium,
    Large,
    Huge,
}

/// How large a project of `n` hours is.
pub open spec fn size_of(n: int) -> ProjectSize {
    if n < LOW {
        ProjectSize::Small
    } else if n < MEDIUM {
        ProjectSize::Medium
    } else if n < HIGH {
        ProjectSize::Large
    } else {
        ProjectSize::Huge
    }
}

/// How large a project of `n` hours is.
pub fn get_size(n: u64) -> (size: ProjectSize)
    ensures
        size == size_of(n as int),
{
    if n < LOW {
        ProjectSize::Small
    } else if n < MEDIUM {
        ProjectSize::Medium
    } else if n < HIGH {
        ProjectSize::Large
    } else {
        ProjectSize::Huge
    }
}

/// What a label `k` with its value `v` says.
pub open spec fn kv_view(k: ChildrenView, v: ChildrenView) -> ElementView {
    classed(
        group(
            "div"@,
            seq![
                classed(element_of("div"@, k), "label"@),
                classed(element_of("div"@, v), "value"@),
            ],
        ),
        "info-wrapper"@,
    )
}

/// The label `k` with its value `v`.
pub fn kv<K: IntoChildren, V: IntoChildren>(k: K, v: V) -> (e: Element)
    ensures
        e@ == kv_view(k.children(), v.children()),
{
    let parts = vec![div(k).class("label"), div(v).class("value")];
    assert(element_views(parts@) =~= seq![
        classed(element_of("div"@, k.children()), "label"@),
        classed(element_of("div"@, v.children()), "value"@),
    ]);
    div(parts).class("info-wrapper")
}

/// The label `k` with the text `v` as its value.
pub open spec fn kv_text(k: Seq<char>, v: Seq<char>) -> ElementView {
    kv_view(ChildrenView::One(NodeView::Text(k)), ChildrenView::One(NodeView::Text(v)))
}

/// What is left of `provision` once `done` is done, or by how much `done`
/// goes beyond it.
pub open spec fn remaining_view(provision: Duration, done: Duration) -> ElementView {
    if done.secs() > provision.secs() {
        with_class_added(
            kv_view(
                ChildrenView::One(NodeView::Text("Overtime: "@)),
                ChildrenView::One(
                    NodeView::HTML(
                        text_element(
                            "span"@,
                            decimal(
                                hours(
                                    Duration { millis: (done.millis - provision.millis) as u64 },
                                ) as nat,
                            ) + "h"@,
                        ),
                    ),
                ),
            ),
            "overtime"@,
        )
    } else {
        with_class_added(
            kv_view(
                ChildrenView::One(NodeView::Text("Remaining:"@)),
                ChildrenView::One(
                    NodeView::HTML(
                        text_element(
                            "span"@,
                            decimal(
                                hours(
                                    Duration { millis: (provision.millis - done.millis) as u64 },
                                ) as nat,
                            ) + "h"@,
                        ),
                    ),
                ),
            ),
            "remaining"@,
        )
    }
}

/// What is left of `provision` once `done` is done, or by how much `done`
/// goes beyond it.
pub fn remaining(provision: Duration, done: Duration) -> (e: Element)
    requires
        done.secs() > provision.secs() || done.millis <= provision.millis,
    ensures
        e@ == remaining_view(provision, done),
{
    let p = provision.as_secs();
    let d = done.as_secs();
    if d > p {
        let over = Duration { millis: done.millis - provision.millis };
        kv("Overtime: ", span(format_hour(over))).add_class("overtime")
    } else {
        let left = Duration { millis: provision.millis - done.millis };
        kv("Remaining:", span(format_hour(left))).add_class("remaining")
    }
}

/// The deadline `end`, whose date is `date`; marked where it has passed at
/// `now`.
pub open spec fn deadline_view(end: SystemTime, now: SystemTime, date: Seq<char>) -> ElementView {
    if end.millis < now.millis {
        with_class_added(kv_text("Deadline:"@, date), "not-in-time"@)
    } else {
        kv_text("Deadline:"@, date)
    }
}

/// The deadline `end`, whose date is `date`; marked where it has passed at
/// `now`.
pub fn deadline(end: &SystemTime, now: &SystemTime, date: &String) -> (e: Element)
    ensures
        e@ == deadline_view(*end, *now, date@),
{
    if end.millis < now.millis {
        kv("Deadline:", date).add_class("not-in-time")
    } else {
        kv("Deadline:", date)
    }
}

/// The share of `part` in `whole`, in percent.
pub open spec fn percent(part: int, whole: int) -> int {
    round_div_spec(part * 100, whole)
}

/// The three bars of the gauge of a project with `provision` set aside and
/// `done` done: the percent of time over, of time available and of time
/// done.
pub open spec fn gauge_percents(provision: Duration, done: Duration) -> (int, int, int) {
    let p = provision.secs() + 1;
    let d = done.secs() + 1;
    if d > p {
        (percent(d - p, d), 0, percent(p, d))
    } else {
        (0, percent(p - d, p), percent(d, p))
    }
}

/// The class of the gauge of a project of the size `size`.
pub open spec fn gauge_class(size: ProjectSize) -> Seq<char> {
    match size {
        ProjectSize::Small => "project-gauge small"@,
        ProjectSize::Medium => "project-gauge medium"@,
        ProjectSize::Large => "project-gauge large"@,
        ProjectSize::Huge => "project-gauge huge"@,
    }
}

/// A bar of the gauge: an empty `div` of the class `class`, `height`
/// percent high.
pub open spec fn bar_view(class: Seq<char>, height: int) -> ElementView {
    attributed(
        classed(element_of("div"@, ChildrenView::Empty), class),
        "style"@,
        "height:"@ + decimal(height as nat) + "%;"@,
    )
}

/// What the gauge of a project with `provision` set aside and `done` done
/// says.
pub open spec fn gauge_view(provision: Duration, done: Duration) -> ElementView {
    let bars = gauge_percents(provision, done);
    classed(
        group(
            "div"@,
            seq![
                bar_view("time-over"@, bars.0),
                bar_view("time-available"@, bars.1),
                bar_view("time-done"@, bars.2),
            ],
        ),
        gauge_class(size_of((provision.secs() + 1) / 3600)),
    )
}

/// A bar of the gauge: an empty `div` of the class `class`, `height`
/// percent high.
fn make_bar(class: &str, height: u64) -> (e: Element)
    ensures
        e@ == bar_view(class@, height as int),
{
    let mut style = concat("height:", u64_to_string(height).as_str());
    style.append("%;");
    div(crate::html::Empty).class(class).set("style", style.as_str())
}

/// The gauge of a project with `provision` set aside and `done` done.
pub fn make_gauge(provision: &Duration, done: &Duration) -> (e: Element)
    ensures
        e@ == gauge_view(*provision, *done),
{
    let p = provision.as_secs() + 1;
    let d = done.as_secs() + 1;
    let (done_percent, avail_percent, over_percent) = if d > p {
        (round_div(p * 100, d), 0, round_div((d - p) * 100, d))
    } else {
        (round_div(d * 100, p), round_div((p - d) * 100, p), 0)
    };
    let class_name = match get_size(p / 3600) {
        ProjectSize::Small => "project-gauge small",
        ProjectSize::Medium => "project-gauge medium",
        ProjectSize::Large => "project-gauge large",
        ProjectSize::Huge => "project-gauge huge",
    };
    let bars = vec![
        make_bar("time-over", over_percent),
        make_bar("time-available", avail_percent),
        make_bar("time-done", done_percent),
    ];
    proof {
        let percents = gauge_percents(*provision, *done);
        assert(element_views(bars@) =~= seq![
            bar_view("time-over"@, percents.0),
            bar_view("time-available"@, percents.1),
            bar_view("time-done"@, percents.2),
        ]);
    }
    div(bars).class(class_name)
}

/// The class of the wrapper of a project.
pub open spec fn wrapper_class_text(opt_completed: Option<SystemTime>) -> Seq<char> {
    match opt_completed {
        None => "project-wrapper"@,
        Some(_) => "project-wrapper completed"@,
    }
}

/// The class of the wrapper of a project.
pub fn wrapper_class(opt_completed: Option<SystemTime>) -> (class: String)
    ensures
        class@ == wrapper_class_text(opt_completed),
{
    match opt_completed {
        None => String::from_str("project-wrapper"),
        Some(_) => String::from_str("project-wrapper completed"),
    }
}

/// Where the calendar of the project `name` is shown.
pub open spec fn calendar_href(base_path: Seq<char>, name: Seq<char>) -> Seq<char> {
    base_path + "calendar/"@ + name
}

/// What the title of the project `name` says: a link to its calendar, with
/// the date on which it was completed in front where it was.
pub open spec fn title_view(name: Seq<char>, base_path: Seq<char>, completed: Option<Seq<char>>) -> ElementView {
    match completed {
        None => wrap("h2"@, linked(name, calendar_href(base_path, name))),
        Some(date) => group(
            "h2"@,
            seq![
                text_element("em"@, date),
                text_element("span"@, " "@),
                linked(name, calendar_href(base_path, name)),
            ],
        ),
    }
}

/// The title of the project `name`, with the date `completed` on which it
/// was completed, where it was.
pub fn project_title(name: &str, base_path: &str, completed: Option<&String>) -> (e: Element)
    ensures
        e@ == title_view(
            name@,
            base_path@,
            match completed {
                None => None,
                Some(d) => Some(d@),
            },
        ),
{
    let mut href = concat(base_path, "calendar/");
    href.append(name);
    match completed {
        None => h2(link(name, href.as_str())),
        Some(date) => {
            let parts = vec![em(date), span(" "), link(name, href.as_str())];
            assert(element_views(parts@) =~= seq![
                text_element("em"@, date@),
                text_element("span"@, " "@),
                linked(name@, calendar_href(base_path@, name@)),
            ]);
            h2(parts)
        },
    }
}

/// What the note `note` of the day `date` says.
pub open spec fn note_view(note: NoteRecord, date: Seq<char>) -> ElementView {
    classed(
        group(
            "div"@,
            seq![
                classed(text_element("div"@, date), "note-date"@),
                classed(text_element("div"@, shown_name(note.username@)), "note-user"@),
                classed(text_element("p"@, note.content@), "note-content"@),
            ],
        ),
        "note"@,
    )
}

/// What the notes `notes` of the days `dates` say: folded away, and not
/// shown at all where there are none.
pub open spec fn notes_view(notes: Seq<NoteRecord>, dates: Seq<Seq<char>>) -> ElementView {
    if notes.len() == 0 {
        hidden()
    } else {
        classed(
            group(
                "details"@,
                seq![
                    text_element("summary"@, "notes"@),
                    group("div"@, Seq::new(notes.len(), |i: int| note_view(notes[i], dates[i]))),
                ],
            ),
            "notes"@,
        )
    }
}

/// The notes `notes`, where `dates` holds the day of each.
pub fn make_notes(notes: &Vec<NoteRecord>, dates: &Vec<String>) -> (e: Element)
    requires
        notes.len() == dates.len(),
    ensures
        e@ == notes_view(notes@, strings_view(dates@)),
{
    if notes.len() == 0 {
        return no_display();
    }
    let mut items: Vec<Element> = Vec::new();
    let mut i: usize = 0;
    while i < notes.len()
        invariant
            i <= notes.len(),
            notes.len() == dates.len(),
            items.len() == i,
            forall|j: int| 0 <= j < i ==> (#[trigger] items@[j])@ == note_view(notes@[j], dates@[j]@),
        decreases notes.len() - i,
    {
        let note = &notes[i];
        let parts = vec![
            div(&dates[i]).class("note-date"),
            div(display_username(note.username.as_str())).class("note-user"),
            paragraph(note.content.clone()).class("note-content"),
        ];
        assert(element_views(parts@) =~= seq![
            classed(text_element("div"@, dates@[i as int]@), "note-date"@),
            classed(text_element("div"@, shown_name(note.username@)), "note-user"@),
            classed(text_element("p"@, note.content@), "note-content"@),
        ]);
        items.push(div(parts).class("note"));
        i = i + 1;
    }
    proof {
        assert(element_views(items@) =~= Seq::new(
            notes@.len(),
            |i: int| note_view(notes@[i], strings_view(dates@)[i]),
        ));
    }
    let parts = vec![summary("notes"), div(items)];
    assert(element_views(parts@) =~= seq![
        text_element("summary"@, "notes"@),
        group(
            "div"@,
            Seq::new(notes@.len(), |i: int| note_view(notes@[i], strings_view(dates@)[i])),
        ),
    ]);
    details(parts).class("notes")
}

/// The work of `tasks`, added up.
pub open spec fn done_millis(tasks: Seq<AggregatedTaskRecord>) -> int
    decreases tasks.len(),
{
    if tasks.len() == 0 {
        0
    } else {
        done_millis(tasks.drop_last()) + tasks.last().duration.millis
    }
}

/// The work of `tasks`, added up.
pub fn get_done(tasks: Vec<AggregatedTaskRecord>) -> (done: Duration)
    requires
        done_millis(tasks@) <= u64::MAX,
    ensures
        done.millis == done_millis(tasks@),
{
    let mut total: u64 = 0;
    let mut i: usize = 0;
    while i < tasks.len()
        invariant
            i <= tasks.len(),
            total == done_millis(tasks@.take(i as int)),
            done_millis(tasks@) <= u64::MAX,
        decreases tasks.len() - i,
    {
        proof {
            assert(tasks@.take(i + 1).drop_last() =~= tasks@.take(i as int));
            assert(tasks@.take(i + 1).last() == tasks@[i as int]);
            lemma_done_millis_grows(tasks@, i + 1);
        }
        total = total + tasks[i].duration.millis;
        i = i + 1;
    }
    proof {
        assert(tasks@.take(i as int) =~= tasks@);
    }
    Duration { millis: total }
}

/// The work of the first tasks is no more than that of all.
proof fn lemma_done_millis_grows(tasks: Seq<AggregatedTaskRecord>, n: int)
    requires
        0 <= n <= tasks.len(),
    ensures
        0 <= done_millis(tasks.take(n)) <= done_millis(tasks),
    decreases tasks.len() - n,
{
    if n == tasks.len() {
        assert(tasks.take(n) =~= tasks);
        lemma_done_millis_not_negative(tasks);
    } else {
        lemma_done_millis_grows(tasks, n + 1);
        assert(tasks.take(n + 1).drop_last() =~= tasks.take(n));
        lemma_done_millis_not_negative(tasks.take(n));
    }
}

/// No work adds up to less than nothing.
proof fn lemma_done_millis_not_negative(tasks: Seq<AggregatedTaskRecord>)
    ensures
        0 <= done_millis(tasks),
    decreases tasks.len(),
{
    if tasks.len() > 0 {
        lemma_done_millis_not_negative(tasks.drop_last());
    }
}

/// Project `a` is due before project `b`, or has a deadline where `b` has none.
pub open spec fn due_first() -> spec_fn(TimelineProject, TimelineProject) -> bool {
    |a: TimelineProject, b: TimelineProject| some_first(a.0.end_time, b.0.end_time) < 0
}

/// Project `a` was completed after project `b`, or is not completed where
/// `b` is.
pub open spec fn completed_last() -> spec_fn(TimelineProject, TimelineProject) -> bool {
    |a: TimelineProject, b: TimelineProject| some_first(a.0.completed, b.0.completed) > 0
}

/// Whether `a` is due before `b`.
fn is_due_first(a: &TimelineProject, b: &TimelineProject) -> (r: bool)
    ensures
        r == due_first()(*a, *b),
{
    match cmp_by_deadline(a, b) {
        Ordering::Less => true,
        Ordering::Equal => false,
        Ordering::Greater => false,
    }
}

/// Whether `a` was completed after `b`.
fn is_completed_last(a: &TimelineProject, b: &TimelineProject) -> (r: bool)
    ensures
        r == completed_last()(*a, *b),
{
    match cmp_by_completion(a, b) {
        Ordering::Less => true,
        Ordering::Equal => false,
        Ordering::Greater => false,
    }
}

/// The test whether a project is not completed.
pub open spec fn is_open() -> spec_fn(ProjectRecord) -> bool {
    |p: ProjectRecord| p.completed is None
}

/// The test whether a project is completed.
pub open spec fn is_completed() -> spec_fn(ProjectRecord) -> bool {
    |p: ProjectRecord| p.completed is Some
}

/// The projects that are not completed, and those that are, each in the
/// order of `rows`.
pub fn split_completed(rows: Vec<ProjectRecord>) -> (halves: (Vec<ProjectRecord>, Vec<ProjectRecord>))
    ensures
        halves.0@ == rows@.filter(is_open()),
        halves.1@ == rows@.filter(is_completed()),
{
    let mut active: Vec<ProjectRecord> = Vec::new();
    let mut completed: Vec<ProjectRecord> = Vec::new();
    let ghost open = is_open();
    let ghost closed = is_completed();
    proof {
        reveal(Seq::filter);
        assert(rows@.take(0).filter(open) =~= active@);
        assert(rows@.take(0).filter(closed) =~= completed@);
    }
    for rec in it: rows
        invariant
            open == is_open(),
            closed == is_completed(),
            active@ == it.seq().take(it.index() as int).filter(open),
            completed@ == it.seq().take(it.index() as int).filter(closed),
            it.seq() == rows@,
    {
        proof {
            reveal(Seq::filter);
            let i = it.index() as int;
            assert(rows@.take(i + 1).drop_last() =~= rows@.take(i));
            assert(rows@.take(i + 1).last() == rec);
        }
        let ghost had_active = active@;
        let ghost had_completed = completed@;
        if rec.completed.is_none() {
            active.push(rec);
        } else {
            completed.push(rec);
        }
        proof {
            let i = it.index() as int;
            assert(open(rec) == (rec.completed is None));
            assert(closed(rec) == (rec.completed is Some));
            assert(rows@.take(i + 1).filter(open) == if open(rec) {
                rows@.take(i).filter(open).push(rec)
            } else {
                rows@.take(i).filter(open)
            });
            assert(rows@.take(i + 1).filter(closed) == if closed(rec) {
                rows@.take(i).filter(closed).push(rec)
            } else {
                rows@.take(i).filter(closed)
            });
        }
    }
    proof {
        assert(rows@.take(rows@.len() as int) =~= rows@);
    }
    (active, completed)
}

/// The projects of the timeline: those that are not completed, the one
/// due first in front, and behind them those that are, the one completed
/// last in front.
pub fn arrange(active: Vec<TimelineProject>, completed: Vec<TimelineProject>) -> (all: Vec<
    TimelineProject,
>)
    ensures
        all@ == crate::sorting::in_order(active@, due_first()) + crate::sorting::in_order(
            completed@,
            completed_last(),
        ),
{
    let mut all = active;
    let mut done = completed;
    crate::sorting::sort_in_order(&mut all, is_due_first, Ghost(due_first()));
    crate::sorting::sort_in_order(&mut done, is_completed_last, Ghost(completed_last()));
    all.append(&mut done);
    all
}

/// The days of a project as text: its deadline, the day it was completed,
/// and the day of each of its notes. What the project does not have is not
/// read.
pub struct ProjectDates {
    pub deadline: String,
    pub completed: String,
    pub notes: Vec<String>,
}

/// The day on which a project was completed, where it was.
pub open spec fn completed_on(opt_completed: Option<SystemTime>, date: Seq<char>) -> Option<
    Seq<char>,
> {
    match opt_completed {
        None => None,
        Some(_) => Some(date),
    }
}

/// The label `k` with the hours of `d`.
pub open spec fn kv_hours(k: Seq<char>, d: Duration) -> ElementView {
    kv_text(k, decimal(hours(d) as nat) + "h"@)
}

/// What the wrapper of a project says: the gauge and what is known of
/// the project, under the class that fits.
pub open spec fn project_view(
    gauge: ElementView,
    info: Seq<ElementView>,
    opt_completed: Option<SystemTime>,
) -> ElementView {
    classed(
        group("div"@, seq![gauge, classed(group("div"@, info), "project-info"@)]),
        wrapper_class_text(opt_completed),
    )
}

/// The wrapper of a project: the gauge and what is known of the project.
fn make_project(gauge: Element, info: Vec<Element>, opt_completed: Option<SystemTime>) -> (e:
    Element)
    ensures
        e@ == project_view(gauge@, element_views(info@), opt_completed),
{
    let parts = vec![gauge, div(info).class("project-info")];
    assert(element_views(parts@) =~= seq![
        gauge@,
        classed(group("div"@, element_views(info@)), "project-info"@),
    ]);
    div(parts).class(wrapper_class(opt_completed).as_str())
}

/// What a project with a deadline and a provision says.
pub open spec fn full_view(
    name: Seq<char>,
    base_path: Seq<char>,
    end: SystemTime,
    now: SystemTime,
    provision: Duration,
    done: Duration,
    opt_completed: Option<SystemTime>,
    notes: Seq<NoteRecord>,
    dates: ProjectDates,
) -> ElementView {
    project_view(
        gauge_view(provision, done),
        seq![
            title_view(name, base_path, completed_on(opt_completed, dates.completed@)),
            deadline_view(end, now, dates.deadline@),
            remaining_view(provision, done),
            kv_hours("Provisioned:"@, provision),
            kv_hours("Done:"@, done),
            notes_view(notes, strings_view(dates.notes@)),
        ],
        opt_completed,
    )
}

/// The title of a project, by what is known of its completion.
fn title_of(name: &str, base_path: &str, opt_completed: Option<SystemTime>, dates: &ProjectDates) -> (e:
    Element)
    ensures
        e@ == title_view(name@, base_path@, completed_on(opt_completed, dates.completed@)),
{
    match opt_completed {
        None => project_title(name, base_path, None),
        Some(_) => project_title(name, base_path, Some(&dates.completed)),
    }
}

/// A project with a deadline and a provision.
pub fn make_full(
    name: &str,
    base_path: &str,
    end: &SystemTime,
    now: &SystemTime,
    provision: &Duration,
    done: &Duration,
    opt_completed: Option<SystemTime>,
    notes: &Vec<NoteRecord>,
    dates: &ProjectDates,
) -> (e: Element)
    requires
        notes.len() == dates.notes.len(),
        done.secs() > provision.secs() || done.millis <= provision.millis,
    ensures
        e@ == full_view(
            name@,
            base_path@,
            *end,
            *now,
            *provision,
            *done,
            opt_completed,
            notes@,
            *dates,
        ),
{
    let info = vec![
        title_of(name, base_path, opt_completed, dates),
        deadline(end, now, &dates.deadline),
        remaining(*provision, *done),
        kv("Provisioned:", &format_hour(*provision)),
        kv("Done:", &format_hour(*done)),
        make_notes(notes, &dates.notes),
    ];
    assert(element_views(info@) =~= seq![
        title_view(name@, base_path@, completed_on(opt_completed, dates.completed@)),
        deadline_view(*end, *now, dates.deadline@),
        remaining_view(*provision, *done),
        kv_hours("Provisioned:"@, *provision),
        kv_hours("Done:"@, *done),
        notes_view(notes@, strings_view(dates.notes@)),
    ]);
    make_project(make_gauge(provision, done), info, opt_completed)
}

/// What a project with a provision and no deadline says.
pub open spec fn with_provision_view(
    name: Seq<char>,
    base_path: Seq<char>,
    provision: Duration,
    done: Duration,
    opt_completed: Option<SystemTime>,
    notes: Seq<NoteRecord>,
    dates: ProjectDates,
) -> ElementView {
    project_view(
        gauge_view(provision, done),
        seq![
            title_view(name, base_path, completed_on(opt_completed, dates.completed@)),
            remaining_view(provision, done),
            kv_hours("Provisioned:"@, provision),
            kv_hours("Done:"@, done),
            notes_view(notes, strings_view(dates.notes@)),
        ],
        opt_completed,
    )
}

/// A project with a provision and no deadline.
pub fn make_with_provision(
    name: &str,
    base_path: &str,
    provision: &Duration,
    done: &Duration,
    opt_completed: Option<SystemTime>,
    notes: &Vec<NoteRecord>,
    dates: &ProjectDates,
) -> (e: Element)
    requires
        notes.len() == dates.notes.len(),
        done.secs() > provision.secs() || done.millis <= provision.millis,
    ensures
        e@ == with_provision_view(
            name@,
            base_path@,
            *provision,
            *done,
            opt_completed,
            notes@,
            *dates,
        ),
{
    let info = vec![
        title_of(name, base_path, opt_completed, dates),
        remaining(*provision, *done),
        kv("Provisioned:", &format_hour(*provision)),
        kv("Done:", &format_hour(*done)),
        make_notes(notes, &dates.notes),
    ];
    assert(element_views(info@) =~= seq![
        title_view(name@, base_path@, completed_on(opt_completed, dates.completed@)),
        remaining_view(*provision, *done),
        kv_hours("Provisioned:"@, *provision),
        kv_hours("Done:"@, *done),
        notes_view(notes@, strings_view(dates.notes@)),
    ]);
    make_project(make_gauge(provision, done), info, opt_completed)
}

/// What a project with a deadline and no provision says.
pub open spec fn with_end_view(
    name: Seq<char>,
    base_path: Seq<char>,
    end: SystemTime,
    now: SystemTime,
    done: Duration,
    opt_completed: Option<SystemTime>,
    notes: Seq<NoteRecord>,
    dates: ProjectDates,
) -> ElementView {
    project_view(
        gauge_view(done, done),
        seq![
            title_view(name, base_path, completed_on(opt_completed, dates.completed@)),
            deadline_view(end, now, dates.deadline@),
            kv_hours("Done:"@, done),
            notes_view(notes, strings_view(dates.notes@)),
        ],
        opt_completed,
    )
}

/// A project with a deadline and no provision.
pub fn make_with_end(
    name: &str,
    base_path: &str,
    end: &SystemTime,
    now: &SystemTime,
    done: &Duration,
    opt_completed: Option<SystemTime>,
    notes: &Vec<NoteRecord>,
    dates: &ProjectDates,
) -> (e: Element)
    requires
        notes.len() == dates.notes.len(),
    ensures
        e@ == with_end_view(name@, base_path@, *end, *now, *done, opt_completed, notes@, *dates),
{
    let info = vec![
        title_of(name, base_path, opt_completed, dates),
        deadline(end, now, &dates.deadline),
        kv("Done:", &format_hour(*done)),
        make_notes(notes, &dates.notes),
    ];
    assert(element_views(info@) =~= seq![
        title_view(name@, base_path@, completed_on(opt_completed, dates.completed@)),
        deadline_view(*end, *now, dates.deadline@),
        kv_hours("Done:"@, *done),
        notes_view(notes@, strings_view(dates.notes@)),
    ]);
    make_project(make_gauge(done, done), info, opt_completed)
}

/// What a project without deadline or provision says.
pub open spec fn bare_view(
    name: Seq<char>,
    base_path: Seq<char>,
    done: Duration,
    opt_completed: Option<SystemTime>,
    notes: Seq<NoteRecord>,
    dates: ProjectDates,
) -> ElementView {
    project_view(
        gauge_view(done, done),
        seq![
            title_view(name, base_path, completed_on(opt_completed, dates.completed@)),
            kv_hours("Done:"@, done),
            notes_view(notes, strings_view(dates.notes@)),
        ],
        opt_completed,
    )
}

/// A project without deadline or provision.
pub fn make_bare(
    name: &str,
    base_path: &str,
    done: &Duration,
    opt_completed: Option<SystemTime>,
    notes: &Vec<NoteRecord>,
    dates: &ProjectDates,
) -> (e: Element)
    requires
        notes.len() == dates.notes.len(),
    ensures
        e@ == bare_view(name@, base_path@, *done, opt_completed, notes@, *dates),
{
    let info = vec![
        title_of(name, base_path, opt_completed, dates),
        kv("Done:", &format_hour(*done)),
        make_notes(notes, &dates.notes),
    ];
    assert(element_views(info@) =~= seq![
        title_view(name@, base_path@, completed_on(opt_completed, dates.completed@)),
        kv_hours("Done:"@, *done),
        notes_view(notes@, strings_view(dates.notes@)),
    ]);
    make_project(make_gauge(done, done), info, opt_completed)
}

/// The project `p` can be shown with the days `dates`: there is a day for
/// each note, and where the work done is within the same second as the
/// provision it is not beyond it.
pub open spec fn can_show(p: TimelineProject, dates: ProjectDates) -> bool {
    &&& p.2@.len() == dates.notes@.len()
    &&& match p.0.provision {
        None => true,
        Some(provision) => p.1.secs() > provision.secs() || p.1.millis <= provision.millis,
    }
}

/// What the project `p` says on the timeline, by what it has of deadline
/// and provision.
pub open spec fn timeline_entry(
    p: TimelineProject,
    dates: ProjectDates,
    base_path: Seq<char>,
    now: SystemTime,
) -> ElementView {
    match (p.0.end_time, p.0.provision) {
        (Some(end), Some(provision)) => full_view(
            p.0.name@,
            base_path,
            end,
            now,
            provision,
            p.1,
            p.0.completed,
            p.2@,
            dates,
        ),
        (None, Some(provision)) => with_provision_view(
            p.0.name@,
            base_path,
            provision,
            p.1,
            p.0.completed,
            p.2@,
            dates,
        ),
        (Some(end), None) => with_end_view(
            p.0.name@,
            base_path,
            end,
            now,
            p.1,
            p.0.completed,
            p.2@,
            dates,
        ),
        (None, None) => bare_view(p.0.name@, base_path, p.1, p.0.completed, p.2@, dates),
    }
}

/// The project `p` as it is shown on the timeline.
pub fn make_entry(p: &TimelineProject, dates: &ProjectDates, base_path: &str, now: &SystemTime) -> (e:
    Element)
    requires
        can_show(*p, *dates),
    ensures
        e@ == timeline_entry(*p, *dates, base_path@, *now),
{
    let name = p.0.name.as_str();
    match (p.0.end_time, p.0.provision) {
        (Some(end), Some(provision)) => make_full(
            name,
            base_path,
            &end,
            now,
            &provision,
            &p.1,
            p.0.completed,
            &p.2,
            dates,
        ),
        (None, Some(provision)) => make_with_provision(
            name,
            base_path,
            &provision,
            &p.1,
            p.0.completed,
            &p.2,
            dates,
        ),
        (Some(end), None) => make_with_end(
            name,
            base_path,
            &end,
            now,
            &p.1,
            p.0.completed,
            &p.2,
            dates,
        ),
        (None, None) => make_bare(name, base_path, &p.1, p.0.completed, &p.2, dates),
    }
}

/// What the style sheet `css` says in the head of a page.
pub open spec fn css_view(css: Seq<char>) -> ElementView {
    attributed(text_element("style"@, css), "type"@, "text/css"@)
}

/// The text of a page with the style sheet `css` and `content` in its body.
pub open spec fn page_text(css: Seq<char>, content: Seq<ElementView>) -> Seq<char> {
    "<!DOCTYPE html>\n"@ + element_text(
        group("html"@, seq![wrap("head"@, css_view(css)), group("body"@, content)]),
    )
}

/// The text of the timeline: its title and an entry for each project, or
/// that no projects were found where the store has no answer.
pub open spec fn timeline_text(
    projects: StoreResult<Vec<TimelineProject>>,
    dates: Seq<ProjectDates>,
    base_path: Seq<char>,
    css: Seq<char>,
    now: SystemTime,
) -> Seq<char> {
    match projects {
        Err(_) => "<!DOCTYPE html>\n"@ + element_text(
            group(
                "html"@,
                seq![
                    wrap("head"@, css_view(css)),
                    wrap("body"@, text_element("div"@, "error: no projects found"@)),
                ],
            ),
        ),
        Ok(projects) => page_text(
            css,
            seq![
                text_element("h1"@, "Timeline"@),
                classed(
                    group(
                        "div"@,
                        Seq::new(
                            projects@.len(),
                            |i: int| timeline_entry(projects@[i], dates[i], base_path, now),
                        ),
                    ),
                    "projects"@,
                ),
            ],
        ),
    }
}

/// The page of the timeline at `now`: `projects` with the days `dates`,
/// under the style sheet `css`, with links that start with `base_path`.
pub fn timeline_page(
    projects: &StoreResult<Vec<TimelineProject>>,
    dates: &Vec<ProjectDates>,
    base_path: &str,
    css: &str,
    now: &SystemTime,
) -> (text: String)
    requires
        projects matches Ok(ps) ==> ps@.len() == dates@.len() && forall|i: int|
            0 <= i < ps@.len() ==> can_show(#[trigger] ps@[i], dates@[i]),
    ensures
        text@ == timeline_text(*projects, dates@, base_path@, css@, *now),
{
    let sheet = style(css).set("type", "text/css");
    match projects {
        Err(_) => {
            let parts = vec![head(sheet), body(div("error: no projects found"))];
            assert(element_views(parts@) =~= seq![
                wrap("head"@, css_view(css@)),
                wrap("body"@, text_element("div"@, "error: no projects found"@)),
            ]);
            with_doctype(html(parts))
        },
        Ok(ps) => {
            let mut elements: Vec<Element> = Vec::new();
            let mut i: usize = 0;
            while i < ps.len()
                invariant
                    i <= ps.len(),
                    ps@.len() == dates@.len(),
                    elements.len() == i,
                    forall|j: int| 0 <= j < ps@.len() ==> can_show(#[trigger] ps@[j], dates@[j]),
                    forall|j: int|
                        0 <= j < i ==> (#[trigger] elements@[j])@ == timeline_entry(
                            ps@[j],
                            dates@[j],
                            base_path@,
                            *now,
                        ),
                decreases ps.len() - i,
            {
                assert(can_show(ps@[i as int], dates@[i as int]));
                elements.push(make_entry(&ps[i], &dates[i], base_path, now));
                i = i + 1;
            }
            proof {
                assert(element_views(elements@) =~= Seq::new(
                    ps@.len(),
                    |i: int| timeline_entry(ps@[i], dates@[i], base_path@, *now),
                ));
            }
            let content = vec![h1("Timeline"), div(elements).class("projects")];
            assert(element_views(content@) =~= seq![
                text_element("h1"@, "Timeline"@),
                classed(
                    group(
                        "div"@,
                        Seq::new(
                            ps@.len(),
                            |i: int| timeline_entry(ps@[i], dates@[i], base_path@, *now),
                        ),
                    ),
                    "projects"@,
                ),
            ]);
            let parts = vec![head(sheet), body(content)];
            assert(element_views(parts@) =~= seq![
                wrap("head"@, css_view(css@)),
                group("body"@, element_views(content@)),
            ]);
            with_doctype(html(parts))
        },
    }
}

} // verus!
