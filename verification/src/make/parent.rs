//! `!parent`: a project goes under a meta project.
use super::common::{
    candidates_for, candidates_reply, candidates_text, plain, say, select_project, write_one,
    OnFailure, OnFailureView, Replies, RepliesView, Step, StepView,
};
use crate::store::{update_parent, update_parent_statement, ProjectRecord, StoreResult};
use crate::text::concat;
use vstd::prelude::*;

verus! {

/// What `!parent` does. Where the store lacks the child or the parent, it
/// offers names that come near. The parent must be a meta project, the
/// child must not be one, and only who opened the child may move it. Else
/// the child goes under the parent.
pub open spec fn parent_step(
    username: Seq<char>,
    child_name: Seq<char>,
    parent_name: Seq<char>,
    child_info: StoreResult<ProjectRecord>,
    parent_info: StoreResult<ProjectRecord>,
    rows: StoreResult<Vec<ProjectRecord>>,
) -> StepView {
    match (child_info, parent_info) {
        (Err(_), Ok(_)) => StepView::Done(
            candidates_reply(candidates_for(child_name, rows), "Child project not found"@),
        ),
        (Ok(_), Err(_)) => StepView::Done(
            candidates_reply(candidates_for(parent_name, rows), "Parent project not found"@),
        ),
        (Err(_), Err(_)) => StepView::Done(
            plain(
                "Child canditates:\n"@ + candidates_text(candidates_for(child_name, rows), ""@)
                    + "\n\nParent candidates:\n"@ + candidates_text(
                    candidates_for(parent_name, rows),
                    ""@,
                ),
            ),
        ),
        (Ok(child_project), Ok(parent_project)) => if !parent_project.is_meta {
            StepView::Done(
                plain(parent_name + " is **not** a meta project, it can't have child projects."@),
            )
        } else if child_project.is_meta {
            StepView::Done(
                plain(child_name + " **is** a meta project, it can't have a parent project."@),
            )
        } else if child_project.username@ != username {
            StepView::Done(
                plain(
                    child_name + " has been created by "@ + child_project.username@
                        + ", only they can edit this bit."@,
                ),
            )
        } else {
            StepView::Write {
                statements: seq![update_parent_statement(child_name, parent_project.id)],
                then: RepliesView {
                    written: plain("Done"@),
                    failed: OnFailureView::Say(plain("failed to save this into DB."@)),
                },
            }
        },
    }
}

/// Puts the project `child_name` under the meta project `parent_name` for
/// `username`. `child_info` and `parent_info` are what the store has on the two,
/// `rows` all its projects.
pub fn parent(
    username: String,
    child_name: String,
    parent_name: String,
    child_info: StoreResult<ProjectRecord>,
    parent_info: StoreResult<ProjectRecord>,
    rows: &StoreResult<Vec<ProjectRecord>>,
) -> (step: Step)
    ensures
        step@ == parent_step(
            username@,
            child_name@,
            parent_name@,
            child_info,
            parent_info,
            *rows,
        ),
{
    match (
        select_project(child_info, rows, child_name.as_str()),
        select_project(parent_info, rows, parent_name.as_str()),
    ) {
        (Err(candidates), Ok(_)) => Step::Done(candidates.reply("Child project not found")),
        (Ok(_), Err(candidates)) => Step::Done(candidates.reply("Parent project not found")),
        (Err(child_candidates), Err(parent_candidates)) => {
            let mut text = String::from_str("Child canditates:\n");
            text.append(child_candidates.as_text("").as_str());
            text.append("\n\nParent candidates:\n");
            text.append(parent_candidates.as_text("").as_str());
            Step::Done(say(text))
        },
        (Ok(child_project), Ok(parent_project)) => {
            if !parent_project.is_meta {
                Step::Done(
                    say(
                        concat(
                            parent_name.as_str(),
                            " is **not** a meta project, it can't have child projects.",
                        ),
                    ),
                )
            } else if child_project.is_meta {
                Step::Done(
                    say(
                        concat(
                            child_name.as_str(),
                            " **is** a meta project, it can't have a parent project.",
                        ),
                    ),
                )
            } else if child_project.username != username {
                let mut text = concat(child_name.as_str(), " has been created by ");
                text.append(child_project.username.as_str());
                text.append(", only they can edit this bit.");
                Step::Done(say(text))
            } else {
                write_one(
                    update_parent(child_name, parent_project.id),
                    Replies {
                        written: say(String::from_str("Done")),
                        failed: OnFailure::Say(say(String::from_str("failed to save this into DB."))),
                    },
                )
            }
        },
    }
}

} // verus!
