//! `!note`: a note on a project.
use super::common::{
    candidates_for, candidates_reply, or_sorry, plain, select_project, sorry, write_one,
    OnFailureView, RepliesView, Step, StepView,
};
use crate::store::{insert_note, insert_note_statement, ProjectRecord, StoreResult};
use crate::time::SystemTime;
use vstd::prelude::*;

verus! {

/// What `!note` does. Where the store has no project `project`, it offers
/// names that come near. Else it leaves the note and says so.
pub open spec fn note_step(
    username: Seq<char>,
    project: Seq<char>,
    content: Seq<char>,
    now: SystemTime,
    info: StoreResult<ProjectRecord>,
    rows: StoreResult<Vec<ProjectRecord>>,
) -> StepView {
    match info {
        Err(_) => StepView::Done(candidates_reply(candidates_for(project, rows), ""@)),
        Ok(_) => StepView::Write {
            statements: seq![insert_note_statement(project, username, now, content)],
            then: RepliesView { written: plain("Noted."@), failed: OnFailureView::Say(sorry()) },
        },
    }
}

/// Leaves the note `content` of `username` on the project `project` at
/// `now`. `info` is what the store has on the project, `rows` all its
/// projects.
pub fn note(
    username: String,
    project: String,
    content: String,
    now: SystemTime,
    info: StoreResult<ProjectRecord>,
    rows: &StoreResult<Vec<ProjectRecord>>,
) -> (step: Step)
    ensures
        step@ == note_step(username@, project@, content@, now, info, *rows),
{
    match select_project(info, rows, project.as_str()) {
        Err(candidates) => Step::Done(candidates.reply("")),
        Ok(_) => write_one(insert_note(project, username, now, content), or_sorry("Noted.")),
    }
}

} // verus!
