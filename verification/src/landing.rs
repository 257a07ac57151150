//! The page of a room: who is at work, and the projects that are open.
use crate::html::{
    body, classed, div, element_of, element_text, element_views, group, h2, h3, head, html, link,
    linked, span, text_element, title, with_doctype, wrap, ChildrenView, Element, ElementView,
    Empty, NodeView,
};
use crate::sorting::{in_order, sort_in_order};
use crate::store::{ProjectRecord, StoreResult, TaskRecord};
use crate::text::concat;
use crate::time::SystemTime;
use crate::timeline::{is_open, order_some_first, sign, some_first};
use crate::util::{display_username, human_duration, humanized, shown_name};
use core::cmp::Ordering;
use vstd::prelude::*;

verus! {

/// Orders two projects by deadline: the one due first is the lesser, and
/// one with a deadline is less than one without.
pub fn cmp_by_deadline(a: &ProjectRecord, b: &ProjectRecord) -> (o: Ordering)
    ensures
        sign(o) == some_first(a.end_time, b.end_time),
{
    order_some_first(a.end_time, b.end_time)
}

/// Project `a` is due before project `b`, or has a deadline where `b` has none.
pub open spec fn due_first() -> spec_fn(ProjectRecord, ProjectRecord) -> bool {
    |a: ProjectRecord, b: ProjectRecord| some_first(a.end_time, b.end_time) < 0
}

/// Whether `a` is due before `b`.
fn is_due_first(a: &ProjectRecord, b: &ProjectRecord) -> (r: bool)
    ensures
        r == due_first()(*a, *b),
{
    match cmp_by_deadline(a, b) {
        Ordering::Less => true,
        Ordering::Equal => false,
        Ordering::Greater => false,
    }
}

/// The projects of `rows` that are not completed, the one due first in
/// front.
pub fn get_projects(rows: Vec<ProjectRecord>) -> (active: Vec<ProjectRecord>)
    ensures
        active@ == in_order(rows@.filter(is_open()), due_first()),
{
    let (mut active, _) = crate::timeline::split_completed(rows);
    sort_in_order(&mut active, is_due_first, Ghost(due_first()));
    active
}

/// The line on the task `rec` that is under way at `now`.
pub open spec fn record_view(rec: TaskRecord, now: SystemTime) -> ElementView {
    classed(
        text_element(
            "div"@,
            shown_name(rec.username@) + " is performing "@ + rec.task@ + " on "@ + rec.project@
                + ", they will be done in "@ + humanized(
                (rec.end_time.millis - now.millis) as u64,
            ),
        ),
        "record"@,
    )
}

/// The lines on the tasks of `recs` that have not ended at `now`.
pub open spec fn records_view(recs: Seq<TaskRecord>, now: SystemTime) -> Seq<NodeView>
    decreases recs.len(),
{
    if recs.len() == 0 {
        Seq::empty()
    } else if recs.last().end_time.millis >= now.millis {
        records_view(recs.drop_last(), now).push(NodeView::HTML(record_view(recs.last(), now)))
    } else {
        records_view(recs.drop_last(), now)
    }
}

/// The line that leads to the calendar of the project `project`.
pub open spec fn project_line(token: Seq<char>, project: ProjectRecord) -> ElementView {
    group(
        "div"@,
        seq![
            text_element("span"@, "→"@),
            linked(project.name@, "/"@ + token + "/calendar/"@ + project.name@),
        ],
    )
}

/// What the page says of who is at work: a line for each task under way,
/// or that nothing is happening.
pub open spec fn activity_view(current: StoreResult<Vec<TaskRecord>>, now: SystemTime) -> Seq<
    NodeView,
> {
    match current {
        Ok(recs) => if recs@.len() > 0 {
            records_view(recs@, now)
        } else {
            seq![NodeView::Text("Nothing is happening right now."@)]
        },
        Err(_) => seq![NodeView::Text("Nothing is happening right now."@)],
    }
}

/// What the page says of the open projects: a heading and a line for each;
/// nothing where the store has no answer.
pub open spec fn projects_view(token: Seq<char>, projects: StoreResult<Vec<ProjectRecord>>) -> Seq<
    NodeView,
> {
    match projects {
        Err(_) => Seq::empty(),
        Ok(rows) => seq![NodeView::HTML(text_element("h3"@, "active projects"@))] + in_order(
            rows@.filter(is_open()),
            due_first(),
        ).map_values(|p: ProjectRecord| NodeView::HTML(project_line(token, p))),
    }
}

/// The heading of the page of the room `token`.
pub open spec fn room_heading(token: Seq<char>) -> Seq<NodeView> {
    seq![
        NodeView::HTML(text_element("h2"@, token)),
        NodeView::HTML(
            group(
                "div"@,
                seq![
                    text_element("span"@, "got to"@),
                    linked("timeline"@, "/"@ + token + "/timeline"@),
                    text_element("h3"@, "active users"@),
                ],
            ),
        ),
    ]
}

/// What the content of the page of the room `token` says: the heading,
/// and, where the store of the room is there, who is at work and the open
/// projects.
pub open spec fn room_content(
    token: Seq<char>,
    now: SystemTime,
    connected: Option<(StoreResult<Vec<TaskRecord>>, StoreResult<Vec<ProjectRecord>>)>,
) -> ElementView {
    let all = room_heading(token) + match connected {
        None => Seq::empty(),
        Some(found) => activity_view(found.0, now) + projects_view(token, found.1),
    };
    ElementView {
        children: all,
        ..classed(element_of("div"@, ChildrenView::Empty), "content"@)
    }
}

/// The text of the page of the room `token`.
pub open spec fn room_text(
    token: Seq<char>,
    now: SystemTime,
    connected: Option<(StoreResult<Vec<TaskRecord>>, StoreResult<Vec<ProjectRecord>>)>,
) -> Seq<char> {
    "<!DOCTYPE html>\n"@ + element_text(
        group(
            "html"@,
            seq![
                wrap("head"@, text_element("title"@, token)),
                wrap("body"@, room_content(token, now, connected)),
            ],
        ),
    )
}

/// The page of the room `token` at `now`. `connected` is what the store of
/// the room has, where there is one: the tasks under way and the projects.
pub fn room(
    token: &str,
    now: SystemTime,
    connected: Option<(StoreResult<Vec<TaskRecord>>, StoreResult<Vec<ProjectRecord>>)>,
) -> (page: String)
    requires
        connected matches Some(found) ==> (found.0 matches Ok(recs) ==> forall|i: int|
            0 <= i < recs@.len() ==> (#[trigger] recs@[i]).wf()),
    ensures
        page@ == room_text(token@, now, connected),
{
    let mut to_timeline = concat("/", token);
    to_timeline.append("/timeline");
    let top = vec![span("got to"), link("timeline", to_timeline.as_str()), h3("active users")];
    assert(element_views(top@) =~= seq![
        text_element("span"@, "got to"@),
        linked("timeline"@, "/"@ + token@ + "/timeline"@),
        text_element("h3"@, "active users"@),
    ]);
    let heading = vec![h2(token), div(top)];
    proof {
        assert(element_views(heading@) =~= seq![
            text_element("h2"@, token@),
            group(
                "div"@,
                seq![
                    text_element("span"@, "got to"@),
                    linked("timeline"@, "/"@ + token@ + "/timeline"@),
                    text_element("h3"@, "active users"@),
                ],
            ),
        ]);
        assert(crate::html::as_nodes(element_views(heading@)) =~= room_heading(token@));
        crate::html::lemma_known_tags();
    }
    let mut content = div(heading).class("content");
    let ghost base = content@;
    assert(base.children == room_heading(token@));
    assert(base == (ElementView {
        children: room_heading(token@),
        ..classed(element_of("div"@, ChildrenView::Empty), "content"@)
    }));
    match connected {
        None => {
            assert(content@.children =~= room_content(token@, now, connected).children);
        },
        Some((current, projects)) => {
            match current {
                Ok(recs) if recs.len() > 0 => {
                    let mut i: usize = 0;
                    assert(recs@.take(0) =~= Seq::empty());
                    assert(content@.children =~= room_heading(token@) + records_view(
                        recs@.take(0),
                        now,
                    ));
                    while i < recs.len()
                        invariant
                            i <= recs.len(),
                            forall|j: int| 0 <= j < recs@.len() ==> (#[trigger] recs@[j]).wf(),
                            content@ == (ElementView {
                                children: room_heading(token@) + records_view(
                                    recs@.take(i as int),
                                    now,
                                ),
                                ..base
                            }),
                            !base.void,
                        decreases recs.len() - i,
                    {
                        proof {
                            assert(recs@.take(i + 1).drop_last() =~= recs@.take(i as int));
                            assert(recs@.take(i + 1).last() == recs@[i as int]);
                        }
                        let rec = &recs[i];
                        assert(rec.wf());
                        match rec.end_time.duration_since(&now) {
                            Some(duration) => {
                                let mut line = display_username(rec.username.as_str());
                                line.append(" is performing ");
                                line.append(rec.task.as_str());
                                line.append(" on ");
                                line.append(rec.project.as_str());
                                line.append(", they will be done in ");
                                line.append(human_duration(duration).as_str());
                                let ghost before = content@.children;
                                content = content.append(div(line).class("record"));
                                proof {
                                    assert(content@.children =~= room_heading(token@)
                                        + records_view(recs@.take(i + 1), now));
                                }
                            },
                            None => {},
                        }
                        i = i + 1;
                    }
                    proof {
                        assert(recs@.take(i as int) =~= recs@);
                    }
                },
                _ => {
                    content = content.append_text("Nothing is happening right now.");
                    assert(content@.children =~= room_heading(token@) + activity_view(
                        current,
                        now,
                    ));
                },
            }
            let ghost shown = content@.children;
            assert(shown == room_heading(token@) + activity_view(current, now));
            match projects {
                Err(_) => {
                    assert(shown =~= room_heading(token@) + (activity_view(current, now)
                        + projects_view(token@, projects)));
                },
                Ok(rows) => {
                    let ghost lines = in_order(rows@.filter(is_open()), due_first()).map_values(
                        |p: ProjectRecord| NodeView::HTML(project_line(token@, p)),
                    );
                    let active = get_projects(rows);
                    content = content.append(h3("active projects"));
                    let ghost headed = shown.push(
                        NodeView::HTML(text_element("h3"@, "active projects"@)),
                    );
                    let mut k: usize = 0;
                    assert(content@.children =~= headed + lines.take(0));
                    while k < active.len()
                        invariant
                            k <= active.len(),
                            lines.len() == active@.len(),
                            forall|j: int|
                                0 <= j < lines.len() ==> (#[trigger] lines[j]) == NodeView::HTML(
                                    project_line(token@, active@[j]),
                                ),
                            content@ == (ElementView {
                                children: headed + lines.take(k as int),
                                ..base
                            }),
                            !base.void,
                        decreases active.len() - k,
                    {
                        let project = &active[k];
                        let mut href = concat("/", token);
                        href.append("/calendar/");
                        href.append(project.name.as_str());
                        let parts = vec![span("→"), link(project.name.as_str(), href.as_str())];
                        assert(element_views(parts@) =~= seq![
                            text_element("span"@, "→"@),
                            linked(project.name@, "/"@ + token@ + "/calendar/"@ + project.name@),
                        ]);
                        content = content.append(div(parts));
                        proof {
                            assert(lines.take(k + 1) =~= lines.take(k as int).push(lines[k as int]));
                            assert(content@.children =~= headed + lines.take(k + 1));
                        }
                        k = k + 1;
                    }
                    proof {
                        assert(lines.take(k as int) =~= lines);
                        assert(headed + lines =~= room_heading(token@) + (activity_view(
                            current,
                            now,
                        ) + projects_view(token@, projects)));
                    }
                },
            }
        },
    }
    assert(content@ == room_content(token@, now, connected));
    let top_title = title(Empty).append_text(token);
    assert(top_title@.children =~= text_element("title"@, token@).children);
    let parts = vec![head(top_title), body(content)];
    assert(element_views(parts@) =~= seq![
        wrap("head"@, text_element("title"@, token@)),
        wrap("body"@, room_content(token@, now, connected)),
    ]);
    with_doctype(html(parts))
}

} // verus!
