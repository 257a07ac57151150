//! `!meta`: a project becomes a meta project.
use super::common::{
    candidates_for, candidates_reply, plain, say, select_project, write_one, OnFailure,
    OnFailureView, Replies, RepliesView, Step, StepView,
};
use crate::store::{update_meta, update_meta_statement, ProjectRecord, StoreResult};
use crate::text::concat;
use vstd::prelude::*;

verus! {

/// What `!meta` does. Where the store has no project `project_name`, it
/// offers names that come near. A project that is a meta project already
/// stays as it is, and so does one that somebody else has opened. Else the
/// project becomes a meta project.
pub open spec fn meta_step(
    username: Seq<char>,
    project_name: Seq<char>,
    info: StoreResult<ProjectRecord>,
    rows: StoreResult<Vec<ProjectRecord>>,
) -> StepView {
    match info {
        Err(_) => StepView::Done(candidates_reply(candidates_for(project_name, rows), ""@)),
        Ok(project) => if project.is_meta {
            StepView::Done(plain("This project is already a meta project."@))
        } else if project.username@ != username {
            StepView::Done(
                plain(
                    "This project has been created by "@ + project.username@
                        + ", only they can edit this bit."@,
                ),
            )
        } else {
            StepView::Write {
                statements: seq![update_meta_statement(project_name, true)],
                then: RepliesView {
                    written: plain("Done"@),
                    failed: OnFailureView::Say(plain("failed to save this into DB."@)),
                },
            }
        },
    }
}

/// Makes the project `project_name` a meta project for `username`. `info`
/// is what the store has on the project, `rows` all its projects.
pub fn meta(
    username: String,
    project_name: String,
    info: StoreResult<ProjectRecord>,
    rows: &StoreResult<Vec<ProjectRecord>>,
) -> (step: Step)
    ensures
        step@ == meta_step(username@, project_name@, info, *rows),
{
    match select_project(info, rows, project_name.as_str()) {
        Err(candidates) => Step::Done(candidates.reply("")),
        Ok(project) => {
            if project.is_meta {
                Step::Done(say(String::from_str("This project is already a meta project.")))
            } else if project.username != username {
                let mut text = concat("This project has been created by ", project.username.as_str());
                text.append(", only they can edit this bit.");
                Step::Done(say(text))
            } else {
                write_one(
                    update_meta(project_name, true),
                    Replies {
                        written: say(String::from_str("Done")),
                        failed: OnFailure::Say(say(String::from_str("failed to save this into DB."))),
                    },
                )
            }
        },
    }
}

} // verus!
