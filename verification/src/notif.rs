//! Telling users that their task is about to end.
use crate::make::common::{plain, say, write_one, OnFailure, OnFailureView, Replies, RepliesView, Step, StepView};
use crate::store::{insert_notification, insert_notification_statement};
use crate::text::concat;
use crate::time::SystemTime;
use crate::util::{human_duration, humanized};
use vstd::prelude::*;

verus! {

/// What users are told of.
#[derive(Clone, Debug)]
pub enum Notification {
    /// The task with this id, of this user, ends at this time.
    EndOfTask(i64, SystemTime, String),
}

/// Who can be told.
pub trait NotificationHandler {
    /// Takes the notification `n`.
    fn notify(&mut self, n: Notification);
}

/// What `user` is told of a task that ends in `left`.
pub open spec fn ending_text(user: Seq<char>, left: Seq<char>) -> Seq<char> {
    user + ": Your current task will end in "@ + left
        + "\n        You can !more <duration> to continue"@
}

/// What `user` is told of a task that ends in `left`, where the store could
/// not note that the user was told.
pub open spec fn ending_text_unrecorded(user: Seq<char>, left: Seq<char>) -> Seq<char> {
    user + ": Your current task will end in "@ + left
        + "\n        You can !more <duration> to continue.\n        Besides, note that we failed to record this notification, \n        it might come back again, sorry for the inconvenience"@
}

/// What is done for a task that ends at `end`: the store notes that the
/// user was told, and the user is told how long the task still takes at
/// `now`.
pub open spec fn notify_step(task_id: i64, end: SystemTime, user: Seq<char>, now: SystemTime) -> StepView {
    let left = humanized(end.elapsed_since(now).millis);
    StepView::Write {
        statements: seq![insert_notification_statement(task_id, end)],
        then: RepliesView {
            written: plain(ending_text(user, left)),
            failed: OnFailureView::Say(plain(ending_text_unrecorded(user, left))),
        },
    }
}

/// Tells `user` at `now` that the task `task_id` ends at `end`.
pub fn notify(task_id: i64, end: SystemTime, user: &str, now: SystemTime) -> (step: Step)
    requires
        end.millis <= i64::MAX,
    ensures
        step@ == notify_step(task_id, end, user@, now),
{
    let left = human_duration(end.since_or_zero(&now));
    let mut head = concat(user, ": Your current task will end in ");
    head.append(left.as_str());
    let success_message = concat(head.as_str(), "\n        You can !more <duration> to continue");
    let error_message = concat(
        head.as_str(),
        "\n        You can !more <duration> to continue.\n        Besides, note that we failed to record this notification, \n        it might come back again, sorry for the inconvenience",
    );
    write_one(
        insert_notification(task_id, end),
        Replies { written: say(success_message), failed: OnFailure::Say(say(error_message)) },
    )
}

} // verus!
