//! `!new`: a new project.
use super::common::{or_sorry, plain, sorry, write_one, OnFailureView, RepliesView, Step, StepView};
use crate::store::{insert_project, insert_project_statement};
use crate::time::SystemTime;
use vstd::prelude::*;

verus! {

/// What `!new` does: it opens the project and says so.
pub open spec fn new_step(username: Seq<char>, project: Seq<char>, now: SystemTime) -> StepView {
    StepView::Write {
        statements: seq![insert_project_statement(username, project, now)],
        then: RepliesView {
            written: plain("Yeah! New Project!"@),
            failed: OnFailureView::Say(sorry()),
        },
    }
}

/// Opens the project `project` for `username` at `now`.
pub fn new(username: String, project: String, now: SystemTime) -> (step: Step)
    ensures
        step@ == new_step(username@, project@, now),
{
    write_one(insert_project(username, project, now), or_sorry("Yeah! New Project!"))
}

} // verus!
