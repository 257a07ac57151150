//! `!switch`: a user turns to another task.
use super::common::{
    candidates_for, candidates_reply, first_task, plain, say, say_both, select_project, write_two,
    OnFailure, OnFailureView, Replies, RepliesView, Step, StepView,
};
use crate::store::{
    insert_do, insert_do_statement, update_task_end, update_task_end_statement, ProjectRecord,
    StoreResult, TaskRecord,
};
use crate::text::concat;
use crate::time::SystemTime;
use vstd::prelude::*;

verus! {

/// What `!switch` does: the first of the user's tasks under way ends at
/// `now`, and `task` on `project` takes the rest of its time. Where the
/// store has no project `project`, names that come near are offered. A
/// user without a task under way is told so.
pub open spec fn switch_step(
    user: Seq<char>,
    project: Seq<char>,
    task: Seq<char>,
    now: SystemTime,
    pendings: Seq<TaskRecord>,
    info: StoreResult<ProjectRecord>,
    rows: StoreResult<Vec<ProjectRecord>>,
) -> StepView {
    match first_task(pendings) {
        Some(rec) => match info {
            Err(_) => StepView::Done(candidates_reply(candidates_for(project, rows), ""@)),
            Ok(_) => StepView::Write {
                statements: seq![
                    update_task_end_statement(rec.id, now),
                    insert_do_statement(user, now, rec.end_time, project, task),
                ],
                then: RepliesView {
                    written: plain("Good "@ + task + "ing!"@),
                    failed: OnFailureView::Report,
                },
            },
        },
        None => StepView::Done(
            Some(
                (
                    "There's nothing to !switch from, you might want to !do."@,
                    "There's nothing to <strong>!switch</strong> from, you might want to <strong>!do<strong>."@,
                ),
            ),
        ),
    }
}

/// Lets `user` turn at `now` from the first of `pendings`, the tasks that
/// the user has under way, to `task` on `project`. `info` is what the
/// store has on the project, `rows` all its projects.
pub fn switch(
    user: String,
    project: String,
    task: String,
    now: SystemTime,
    pendings: &Vec<TaskRecord>,
    info: StoreResult<ProjectRecord>,
    rows: &StoreResult<Vec<ProjectRecord>>,
) -> (step: Step)
    ensures
        step@ == switch_step(user@, project@, task@, now, pendings@, info, *rows),
{
    if pendings.len() > 0 {
        let rec = &pendings[0];
        match select_project(info, rows, project.as_str()) {
            Err(candidates) => Step::Done(candidates.reply("")),
            Ok(_) => {
                let mut text = concat("Good ", task.as_str());
                text.append("ing!");
                write_two(
                    update_task_end(rec.id, now),
                    insert_do(user, now, rec.end_time, project, task),
                    Replies { written: say(text), failed: OnFailure::Report },
                )
            },
        }
    } else {
        Step::Done(
            say_both(
                "There's nothing to !switch from, you might want to !do.",
                "There's nothing to <strong>!switch</strong> from, you might want to <strong>!do<strong>.",
            ),
        )
    }
}

} // verus!
