//! `!do`: a user starts a task.
use super::common::{
    candidates_for, candidates_reply, check_meta, find_task_of, first_task_of, meta_reply, plain,
    say, select_project, write_one, OnFailure, OnFailureView, Replies, RepliesView, Step, StepView,
};
use crate::store::{insert_do, insert_do_statement, ProjectRecord, StoreResult, TaskRecord};
use crate::text::concat;
use crate::time::{Duration, SystemTime};
use vstd::prelude::*;

verus! {

/// What `!do` does. A user who has a task under way is told so. Where the
/// store has no project `project_name`, names that come near are offered; a
/// meta project takes no work itself. Else the task is recorded from `now`
/// for `duration`.
pub open spec fn start_step(
    user: Seq<char>,
    duration: Duration,
    project_name: Seq<char>,
    task: Seq<char>,
    now: SystemTime,
    pendings: Seq<TaskRecord>,
    info: StoreResult<ProjectRecord>,
    rows: StoreResult<Vec<ProjectRecord>>,
) -> StepView {
    match first_task_of(pendings, user) {
        Some(rec) => StepView::Done(
            plain(
                "You are already doing "@ + rec.task@
                    + ", you should stop it first with !stop or use !switch"@,
            ),
        ),
        None => match info {
            Err(_) => StepView::Done(
                candidates_reply(
                    candidates_for(project_name, rows),
                    "Or if it's a new project, you can !new it first."@,
                ),
            ),
            Ok(project) => match meta_reply(project, rows) {
                Some(r) => StepView::Done(Some(r)),
                None => StepView::Write {
                    statements: seq![
                        insert_do_statement(
                            user,
                            now,
                            SystemTime { millis: (now.millis + duration.millis) as u64 },
                            project_name,
                            task,
                        ),
                    ],
                    then: RepliesView { written: plain("doing OK"@), failed: OnFailureView::Report },
                },
            },
        },
    }
}

/// Starts the task `task` of `user` on the project `project_name` at `now`,
/// for `duration`. `pendings` are the tasks under way, `info` is what the
/// store has on the project, `rows` all its projects.
pub fn start(
    user: String,
    duration: Duration,
    project_name: String,
    task: String,
    now: SystemTime,
    pendings: &Vec<TaskRecord>,
    info: StoreResult<ProjectRecord>,
    rows: &StoreResult<Vec<ProjectRecord>>,
) -> (step: Step)
    requires
        now.millis + duration.millis <= u64::MAX,
    ensures
        step@ == start_step(user@, duration, project_name@, task@, now, pendings@, info, *rows),
{
    match find_task_of(pendings, &user) {
        Some(rec) => {
            let mut text = concat("You are already doing ", rec.task.as_str());
            text.append(", you should stop it first with !stop or use !switch");
            Step::Done(say(text))
        },
        None => match select_project(info, rows, project_name.as_str()) {
            Err(candidates) => Step::Done(
                candidates.reply("Or if it's a new project, you can !new it first."),
            ),
            Ok(project) => match check_meta(&project, rows) {
                Some(r) => Step::Done(Some(r)),
                None => {
                    let end = SystemTime { millis: now.millis + duration.millis };
                    write_one(
                        insert_do(user, now, end, project_name, task),
                        Replies {
                            written: say(String::from_str("doing OK")),
                            failed: OnFailure::Report,
                        },
                    )
                },
            },
        },
    }
}

} // verus!
