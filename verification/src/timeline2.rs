//! The timeline as data: each project that is not completed with its
//! gauge in numbers and its size.
use crate::sorting::{in_order, sort_in_order};
use crate::store::{NoteRecord, ProjectRecord};
use crate::time::{Duration, SystemTime};
use crate::timeline::{order_some_first, percent, round_div, sign, some_first, HIGH, LOW, MEDIUM};
use core::cmp::Ordering;
use vstd::prelude::*;

verus! {

/// An amount of hours, and its share of a whole in percent.
#[derive(Clone, Copy, Debug, PartialEq, Eq, Structural)]
pub struct RelAbs {
    pub value: u64,
    pub percent: u64,
}

/// The amount `value` with the share `percent`.
fn rel_abs(value: u64, percent: u64) -> (r: RelAbs)
    ensures
        r == (RelAbs { value, percent }),
{
    RelAbs { value, percent }
}

/// The gauge of a project: the time over, the time available and the time
/// done, each in hours and in percent.
#[derive(Clone, Copy, Debug, PartialEq, Eq, Structural)]
pub struct Gauge {
    pub overtime: RelAbs,
    pub available: RelAbs,
    pub done: RelAbs,
}

/// The gauge of the project `record` on which `done` is done. A project
/// without provision counts as one that has just what is done.
pub open spec fn gauge_of(record: ProjectRecord, done: Duration) -> Gauge {
    let d = done.secs() + 1;
    let provision = match record.provision {
        None => 0,
        Some(p) => p.secs(),
    };
    let p = match record.provision {
        None => d,
        Some(p) => p.secs(),
    } + 1;
    if d > p {
        Gauge {
            overtime: RelAbs { value: ((d - p) / 3600) as u64, percent: percent(d - p, d) as u64 },
            available: RelAbs { value: (provision / 3600) as u64, percent: 0 },
            done: RelAbs { value: (d / 3600) as u64, percent: percent(p, d) as u64 },
        }
    } else {
        Gauge {
            overtime: RelAbs { value: 0, percent: 0 },
            available: RelAbs {
                value: (provision / 3600) as u64,
                percent: percent(p - d, p) as u64,
            },
            done: RelAbs { value: (d / 3600) as u64, percent: percent(d, p) as u64 },
        }
    }
}

/// The gauge of the project `record` on which `done` is done.
fn gauge(record: &ProjectRecord, done: &Duration) -> (g: Gauge)
    ensures
        g == gauge_of(*record, *done),
{
    let d = done.as_secs() + 1;
    let provision = match record.provision {
        None => 0,
        Some(p) => p.as_secs(),
    };
    let p = match record.provision {
        None => d,
        Some(p) => p.as_secs(),
    } + 1;
    if d > p {
        Gauge {
            overtime: rel_abs((d - p) / 3600, round_div((d - p) * 100, d)),
            available: rel_abs(provision / 3600, 0),
            done: rel_abs(d / 3600, round_div(p * 100, d)),
        }
    } else {
        Gauge {
            overtime: rel_abs(0, 0),
            available: rel_abs(provision / 3600, round_div((p - d) * 100, p)),
            done: rel_abs(d / 3600, round_div(d * 100, p)),
        }
    }
}

/// A project with the work done on it, its notes, its gauge and its size.
#[derive(Debug)]
pub struct TimelineProject {
    pub record: ProjectRecord,
    pub done: Duration,
    pub notes: Vec<NoteRecord>,
    pub gauge: Gauge,
    pub size: String,
}

/// The name of the size of a project of `n` hours.
pub open spec fn size_name(n: int) -> Seq<char> {
    if n < LOW {
        "small"@
    } else if n < MEDIUM {
        "medium"@
    } else if n < HIGH {
        "large"@
    } else {
        "huge"@
    }
}

/// The name of the size of a project of `n` hours.
fn get_size(n: u64) -> (size: String)
    ensures
        size@ == size_name(n as int),
{
    if n < LOW {
        String::from_str("small")
    } else if n < MEDIUM {
        String::from_str("medium")
    } else if n < HIGH {
        String::from_str("large")
    } else {
        String::from_str("huge")
    }
}

/// The hours set aside for the project `record`: none where nothing is.
pub open spec fn provision_hours(record: ProjectRecord) -> int {
    match record.provision {
        None => 0,
        Some(d) => d.secs() / 3600,
    }
}

impl TimelineProject {
    /// The project `record` with `done` done on it and the notes `notes`.
    pub fn new(record: ProjectRecord, done: Duration, notes: Vec<NoteRecord>) -> (p:
        TimelineProject)
        ensures
            p.record == record,
            p.done == done,
            p.notes == notes,
            p.gauge == gauge_of(record, done),
            p.size@ == size_name(provision_hours(record)),
    {
        let gauge = gauge(&record, &done);
        let size = get_size(
            match record.provision {
                None => 0,
                Some(d) => d.as_secs() / 3600,
            },
        );
        TimelineProject { record, done, notes, gauge, size }
    }
}

/// Orders two projects by deadline: the one due first is the lesser, and
/// one with a deadline is less than one without.
pub fn cmp_by_deadline(a: &TimelineProject, b: &TimelineProject) -> (o: Ordering)
    ensures
        sign(o) == some_first(a.record.end_time, b.record.end_time),
{
    order_some_first(a.record.end_time, b.record.end_time)
}

/// Orders two projects by completion: one that is not completed is less
/// than one that is, and of two that are the one completed last is the
/// lesser.
pub fn cmp_by_completion(a: &TimelineProject, b: &TimelineProject) -> (o: Ordering)
    ensures
        sign(o) == some_first(a.record.completed, b.record.completed).spec_neg(),
{
    match order_some_first(a.record.completed, b.record.completed) {
        Ordering::Less => Ordering::Greater,
        Ordering::Equal => Ordering::Equal,
        Ordering::Greater => Ordering::Less,
    }
}

/// Project `a` is due before project `b`, or has a deadline where `b` has none.
pub open spec fn due_first() -> spec_fn(TimelineProject, TimelineProject) -> bool {
    |a: TimelineProject, b: TimelineProject| some_first(a.record.end_time, b.record.end_time) < 0
}

/// Whether `a` is due before `b`.
fn is_due_first(a: &TimelineProject, b: &TimelineProject) -> (r: bool)
    ensures
        r == due_first()(*a, *b),
{
    match cmp_by_deadline(a, b) {
        Ordering::Less => true,
        Ordering::Equal => false,
        Ordering::Greater => false,
    }
}

/// The projects `active`, the one due first in front.
pub fn get_projects(active: Vec<TimelineProject>) -> (sorted: Vec<TimelineProject>)
    ensures
        sorted@ == in_order(active@, due_first()),
{
    let mut sorted = active;
    sort_in_order(&mut sorted, is_due_first, Ghost(due_first()));
    sorted
}

} // verus!
