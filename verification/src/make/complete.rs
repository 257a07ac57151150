//! `!complete`: a project is completed.
use super::common::{
    candidates_for, candidates_reply, or_sorry, plain, say, select_project, sorry, write_one,
    OnFailure, OnFailureView, Replies, RepliesView, Step, StepView,
};
use crate::store::{
    update_completed, update_completed_statement, ProjectRecord, StoreResult,
};
use crate::text::concat;
use crate::time::SystemTime;
use vstd::prelude::*;

verus! {

/// What `!complete` does. Where the store has no project `project`, it
/// offers names that come near. Else it marks the project as completed at
/// `d` and says so, with `date`, the date of `d`.
pub open spec fn complete_step(
    project: Seq<char>,
    d: SystemTime,
    date: Seq<char>,
    info: StoreResult<ProjectRecord>,
    rows: StoreResult<Vec<ProjectRecord>>,
) -> StepView {
    match info {
        Err(_) => StepView::Done(candidates_reply(candidates_for(project, rows), "---"@)),
        Ok(_) => StepView::Write {
            statements: seq![update_completed_statement(project, d)],
            then: RepliesView {
                written: plain("Updated completion date to "@ + date),
                failed: OnFailureView::Say(sorry()),
            },
        },
    }
}

/// Marks the project `project` as completed at `d`, whose date is `date`.
/// `info` is what the store has on the project, `rows` all its projects.
pub fn complete(
    project: String,
    d: SystemTime,
    date: &str,
    info: StoreResult<ProjectRecord>,
    rows: &StoreResult<Vec<ProjectRecord>>,
) -> (step: Step)
    ensures
        step@ == complete_step(project@, d, date@, info, *rows),
{
    match select_project(info, rows, project.as_str()) {
        Err(candidates) => Step::Done(candidates.reply("---")),
        Ok(_) => {
            let text = concat("Updated completion date to ", date);
            write_one(update_completed(project, d), or_sorry(text.as_str()))
        },
    }
}

} // verus!
