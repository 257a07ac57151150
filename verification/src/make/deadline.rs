//! `!deadline`: when a project is due.
use super::common::{
    candidates_for, candidates_reply, or_sorry, plain, select_project, sorry, write_one,
    OnFailureView, RepliesView, Step, StepView,
};
use crate::store::{update_deadline, update_deadline_statement, ProjectRecord, StoreResult};
use crate::text::concat;
use crate::time::SystemTime;
use vstd::prelude::*;

verus! {

/// What `!deadline` does. Where the store has no project `project`, it
/// offers names that come near. Else it sets the deadline to `d` and says
/// so, with `date`, the date of `d`.
pub open spec fn deadline_step(
    project: Seq<char>,
    d: SystemTime,
    date: Seq<char>,
    info: StoreResult<ProjectRecord>,
    rows: StoreResult<Vec<ProjectRecord>>,
) -> StepView {
    match info {
        Err(_) => StepView::Done(
            candidates_reply(
                candidates_for(project, rows),
                "Or if it's a new project, you must !new it first."@,
            ),
        ),
        Ok(_) => StepView::Write {
            statements: seq![update_deadline_statement(project, d)],
            then: RepliesView {
                written: plain("Updated deadline to "@ + date),
                failed: OnFailureView::Say(sorry()),
            },
        },
    }
}

/// Sets the deadline of the project `project` to `d`, whose date is `date`.
/// `info` is what the store has on the project, `rows` all its projects.
pub fn deadline(
    project: String,
    d: SystemTime,
    date: &str,
    info: StoreResult<ProjectRecord>,
    rows: &StoreResult<Vec<ProjectRecord>>,
) -> (step: Step)
    ensures
        step@ == deadline_step(project@, d, date@, info, *rows),
{
    match select_project(info, rows, project.as_str()) {
        Err(candidates) => Step::Done(
            candidates.reply("Or if it's a new project, you must !new it first."),
        ),
        Ok(_) => {
            let text = concat("Updated deadline to ", date);
            write_one(update_deadline(project, d), or_sorry(text.as_str()))
        },
    }
}

} // verus!
