//! What the page templates ask for.
use crate::time::Duration;
use crate::timeline2::TimelineProject;
use vstd::prelude::*;

verus! {

/// The hours in `d`, a second short of an hour counting as the hour.
pub fn duration_to_hour(d: Duration) -> (h: u64)
    ensures
        h == (d.secs() + 1) / 3600,
{
    (d.as_secs() + 1) / 3600
}

/// The test whether a project is a child of the project with the id `id`.
pub open spec fn is_child_of(id: i64) -> spec_fn(TimelineProject) -> bool {
    |tp: TimelineProject| tp.record.parent == Some(id)
}

/// The projects of `projects` that are children of the project with the id
/// `id`, in the order of `projects`.
pub fn child_projects(id: i64, projects: Vec<TimelineProject>) -> (children: Vec<TimelineProject>)
    ensures
        children@ == projects@.filter(is_child_of(id)),
{
    let mut children: Vec<TimelineProject> = Vec::new();
    proof {
        reveal(Seq::filter);
        assert(projects@.take(0).filter(is_child_of(id)) =~= children@);
    }
    for tp in it: projects
        invariant
            children@ == it.seq().take(it.index() as int).filter(is_child_of(id)),
            it.seq() == projects@,
    {
        proof {
            reveal(Seq::filter);
            let i = it.index() as int;
            assert(projects@.take(i + 1).drop_last() =~= projects@.take(i));
            assert(projects@.take(i + 1).last() == tp);
        }
        let is_child = match tp.record.parent {
            Some(parent_id) => parent_id == id,
            None => false,
        };
        if is_child {
            children.push(tp);
        }
    }
    proof {
        assert(projects@.take(projects@.len() as int) =~= projects@);
    }
    children
}

} // verus!
