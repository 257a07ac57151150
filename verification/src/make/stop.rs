//! `!stop`: a user stops the task under way.
use super::common::{
    first_task, plain, say, say_both, write_one, OnFailure, OnFailureView, Replies, RepliesView,
    Step, StepView,
};
use crate::store::{update_task_end, update_task_end_statement, TaskRecord};
use crate::time::SystemTime;
use vstd::prelude::*;

verus! {

/// What `!stop` does: the first of the user's tasks under way ends at
/// `now`; where the store cannot write that, nothing is said. A user
/// without a task under way is told so.
pub open spec fn stop_step(now: SystemTime, pendings: Seq<TaskRecord>) -> StepView {
    match first_task(pendings) {
        Some(rec) => StepView::Write {
            statements: seq![update_task_end_statement(rec.id, now)],
            then: RepliesView {
                written: Some(
                    (
                        "Done, you can !do a new one"@,
                        "Done, you can <strong>!do</strong> a new one"@,
                    ),
                ),
                failed: OnFailureView::Say(None),
            },
        },
        None => StepView::Done(plain("Ther's nothing to !stop for you"@)),
    }
}

/// Stops, at `now`, the first of `pendings`, the tasks that the user has
/// under way.
pub fn stop(now: SystemTime, pendings: &Vec<TaskRecord>) -> (step: Step)
    ensures
        step@ == stop_step(now, pendings@),
{
    if pendings.len() > 0 {
        write_one(
            update_task_end(pendings[0].id, now),
            Replies {
                written: say_both(
                    "Done, you can !do a new one",
                    "Done, you can <strong>!do</strong> a new one",
                ),
                failed: OnFailure::Say(None),
            },
        )
    } else {
        Step::Done(say(String::from_str("Ther's nothing to !stop for you")))
    }
}

} // verus!
