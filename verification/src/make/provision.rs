//! `!provision`: the time set aside for a project.
use super::common::{
    candidates_for, candidates_reply, or_sorry, plain, select_project, sorry, write_one,
    OnFailureView, RepliesView, Step, StepView,
};
use crate::store::{update_provision, update_provision_statement, ProjectRecord, StoreResult};
use crate::time::Duration;
use vstd::prelude::*;

verus! {

/// What `!provision` does. Where the store has no project `project`, it
/// offers names that come near. Else it sets the provision and says so.
pub open spec fn provision_step(
    project: Seq<char>,
    d: Duration,
    info: StoreResult<ProjectRecord>,
    rows: StoreResult<Vec<ProjectRecord>>,
) -> StepView {
    match info {
        Err(_) => StepView::Done(
            candidates_reply(
                candidates_for(project, rows),
                "Or if it's a new project, you must !new it first."@,
            ),
        ),
        Ok(_) => StepView::Write {
            statements: seq![update_provision_statement(project, d)],
            then: RepliesView {
                written: plain("Updated provision"@),
                failed: OnFailureView::Say(sorry()),
            },
        },
    }
}

/// Sets the time set aside for the project `project` to `d`. `info` is
/// what the store has on the project, `rows` all its projects.
pub fn provision(
    project: String,
    d: Duration,
    info: StoreResult<ProjectRecord>,
    rows: &StoreResult<Vec<ProjectRecord>>,
) -> (step: Step)
    ensures
        step@ == provision_step(project@, d, info, *rows),
{
    match select_project(info, rows, project.as_str()) {
        Err(candidates) => Step::Done(
            candidates.reply("Or if it's a new project, you must !new it first."),
        ),
        Ok(_) => write_one(update_provision(project, d), or_sorry("Updated provision")),
    }
}

} // verus!
