//! `!intent`: the time a user means to spend on a project.
use super::common::{
    candidates_for, candidates_reply, check_meta, meta_reply, plain, say, select_project,
    write_one, OnFailure, OnFailureView, Replies, RepliesView, Step, StepView,
};
use crate::store::{insert_intent, insert_intent_statement, ProjectRecord, StoreResult};
use crate::time::Duration;
use vstd::prelude::*;

verus! {

/// What `!intent` does. Where the store has no project `project_name`, it
/// offers names that come near; a meta project takes no work itself. Else
/// the intent is recorded.
pub open spec fn intent_step(
    user: Seq<char>,
    project_name: Seq<char>,
    amount: Duration,
    info: StoreResult<ProjectRecord>,
    rows: StoreResult<Vec<ProjectRecord>>,
) -> StepView {
    match info {
        Err(_) => StepView::Done(
            candidates_reply(
                candidates_for(project_name, rows),
                "Or if it's a new project, you can !new it first."@,
            ),
        ),
        Ok(project) => match meta_reply(project, rows) {
            Some(r) => StepView::Done(Some(r)),
            None => StepView::Write {
                statements: seq![insert_intent_statement(user, project_name, amount)],
                then: RepliesView {
                    written: plain("You won't regret it"@),
                    failed: OnFailureView::Report,
                },
            },
        },
    }
}

/// Records that `user` means to spend `amount` on the project
/// `project_name`. `info` is what the store has on the project, `rows` all
/// its projects.
pub fn intent(
    user: String,
    project_name: String,
    amount: Duration,
    info: StoreResult<ProjectRecord>,
    rows: &StoreResult<Vec<ProjectRecord>>,
) -> (step: Step)
    ensures
        step@ == intent_step(user@, project_name@, amount, info, *rows),
{
    match select_project(info, rows, project_name.as_str()) {
        Err(candidates) => Step::Done(
            candidates.reply("Or if it's a new project, you can !new it first."),
        ),
        Ok(project) => match check_meta(&project, rows) {
            Some(r) => Step::Done(Some(r)),
            None => write_one(
                insert_intent(user, project_name, amount),
                Replies {
                    written: say(String::from_str("You won't regret it")),
                    failed: OnFailure::Report,
                },
            ),
        },
    }
}

} // verus!
