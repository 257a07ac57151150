//! `!more`: a user goes on with the task under way.
use super::common::{
    first_task, plain, say, write_two, OnFailure, OnFailureView, Replies, RepliesView, Step,
    StepView,
};
use crate::store::{
    insert_do, insert_do_statement, update_task_end, update_task_end_statement, TaskRecord,
};
use crate::time::{Duration, SystemTime};
use vstd::prelude::*;

verus! {

/// What `!more` does: the first of the user's tasks under way ends at
/// `now`, and the same task on the same project starts anew for
/// `duration`. A user without a task under way is told so.
pub open spec fn more_step(
    user: Seq<char>,
    duration: Duration,
    now: SystemTime,
    pendings: Seq<TaskRecord>,
) -> StepView {
    match first_task(pendings) {
        Some(rec) => StepView::Write {
            statements: seq![
                update_task_end_statement(rec.id, now),
                insert_do_statement(
                    user,
                    now,
                    SystemTime { millis: (now.millis + duration.millis) as u64 },
                    rec.project@,
                    rec.task@,
                ),
            ],
            then: RepliesView {
                written: plain("Keep up the good work!"@),
                failed: OnFailureView::Report,
            },
        },
        None => StepView::Done(plain("There's nothing to !more for you, sorry."@)),
    }
}

/// Lets `user` go on for `duration` from `now` with the first of
/// `pendings`, the tasks that the user has under way.
pub fn more(user: String, duration: Duration, now: SystemTime, pendings: &Vec<TaskRecord>) -> (step:
    Step)
    requires
        now.millis + duration.millis <= u64::MAX,
    ensures
        step@ == more_step(user@, duration, now, pendings@),
{
    if pendings.len() > 0 {
        let rec = &pendings[0];
        let end = SystemTime { millis: now.millis + duration.millis };
        write_two(
            update_task_end(rec.id, now),
            insert_do(user, now, end, rec.project.clone(), rec.task.clone()),
            Replies {
                written: say(String::from_str("Keep up the good work!")),
                failed: OnFailure::Report,
            },
        )
    } else {
        Step::Done(say(String::from_str("There's nothing to !more for you, sorry.")))
    }
}

} // verus!
