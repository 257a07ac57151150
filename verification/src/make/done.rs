//! `!done`: a user has done a task.
use super::common::{
    candidates_for, candidates_reply, check_meta, find_task_of, first_task, first_task_of,
    meta_reply, plain, say, select_project, write_one, OnFailure, OnFailureView, Replies,
    RepliesView, Step, StepView,
};
use crate::store::{insert_do, insert_do_statement, ProjectRecord, StoreResult, TaskRecord};
use crate::text::concat;
use crate::time::{Duration, SystemTime};
use crate::util::{human_duration, humanized};
use vstd::prelude::*;

verus! {

/// The point in time `duration` before `now`; the epoch where `duration`
/// reaches further back than that.
pub open spec fn given_start(duration: Duration, now: SystemTime) -> SystemTime {
    if duration.millis <= now.millis {
        SystemTime { millis: (now.millis - duration.millis) as u64 }
    } else {
        SystemTime { millis: 0 }
    }
}

/// When a task that took `duration` up to `now` is taken to have started:
/// `duration` before `now`, but not before the epoch and not before the
/// end of the task that the user logged last.
pub open spec fn done_start(
    duration: Duration,
    now: SystemTime,
    latest: StoreResult<Vec<TaskRecord>>,
) -> SystemTime {
    let given_start = given_start(duration, now);
    match latest {
        Err(_) => given_start,
        Ok(res) => match first_task(res@) {
            None => given_start,
            Some(rec) => if rec.end_time.millis < given_start.millis {
                given_start
            } else {
                rec.end_time
            },
        },
    }
}

/// The start of the task is moved: the user has logged a task before, and
/// it ended later than `duration` before `now`.
pub open spec fn done_moved(
    duration: Duration,
    now: SystemTime,
    latest: StoreResult<Vec<TaskRecord>>,
) -> bool {
    match latest {
        Err(_) => false,
        Ok(res) => match first_task(res@) {
            None => false,
            Some(rec) => rec.end_time.millis > now.millis - duration.millis,
        },
    }
}

/// What is said once the task is recorded: that it is, and, where its start
/// was moved to the end of the last task, how long it then was.
pub open spec fn done_message(
    duration: Duration,
    now: SystemTime,
    latest: StoreResult<Vec<TaskRecord>>,
) -> Seq<char> {
    if done_moved(duration, now, latest) {
        "Recorded, but adjusted to the end of your last task. Resulting in just "@ + humanized(
            now.elapsed_since(done_start(duration, now, latest)).millis,
        )
    } else {
        "Well recorded."@
    }
}

/// What `!done` does. A user who has a task under way is told so. Where the
/// store has no project `project_name`, names that come near are offered; a
/// meta project takes no work itself. Else the task is recorded up to
/// `now`, from where [`done_start`] says.
pub open spec fn done_step(
    user: Seq<char>,
    duration: Duration,
    project_name: Seq<char>,
    task: Seq<char>,
    now: SystemTime,
    pendings: Seq<TaskRecord>,
    info: StoreResult<ProjectRecord>,
    rows: StoreResult<Vec<ProjectRecord>>,
    latest: StoreResult<Vec<TaskRecord>>,
) -> StepView {
    match first_task_of(pendings, user) {
        Some(rec) => StepView::Done(
            plain("You are already doing "@ + rec.task@ + ", you're covered, or tricky :)"@),
        ),
        None => match info {
            Err(_) => StepView::Done(candidates_reply(candidates_for(project_name, rows), ""@)),
            Ok(project) => match meta_reply(project, rows) {
                Some(r) => StepView::Done(Some(r)),
                None => {
                    let start = done_start(duration, now, latest);
                    StepView::Write {
                        statements: seq![insert_do_statement(user, start, now, project_name, task)],
                        then: RepliesView {
                            written: plain(done_message(duration, now, latest)),
                            failed: OnFailureView::Report,
                        },
                    }
                },
            },
        },
    }
}

/// Records the task `task` of `user` on the project `project_name`, which
/// took `duration` up to `now`. `pendings` are the tasks under way, `info`
/// is what the store has on the project, `rows` all its projects, `latest`
/// the task that the user logged last.
pub fn done(
    user: String,
    duration: Duration,
    project_name: String,
    task: String,
    now: SystemTime,
    pendings: &Vec<TaskRecord>,
    info: StoreResult<ProjectRecord>,
    rows: &StoreResult<Vec<ProjectRecord>>,
    latest: &StoreResult<Vec<TaskRecord>>,
) -> (step: Step)
    requires
        now.millis <= i64::MAX,
    ensures
        step@ == done_step(
            user@,
            duration,
            project_name@,
            task@,
            now,
            pendings@,
            info,
            *rows,
            *latest,
        ),
{
    match find_task_of(pendings, &user) {
        Some(rec) => {
            let mut text = concat("You are already doing ", rec.task.as_str());
            text.append(", you're covered, or tricky :)");
            Step::Done(say(text))
        },
        None => match select_project(info, rows, project_name.as_str()) {
            Err(candidates) => Step::Done(candidates.reply("")),
            Ok(project) => match check_meta(&project, rows) {
                Some(r) => Step::Done(Some(r)),
                None => {
                    let given_start = if duration.millis <= now.millis {
                        SystemTime { millis: now.millis - duration.millis }
                    } else {
                        SystemTime { millis: 0 }
                    };
                    let latest_end = match latest {
                        Err(_) => None,
                        Ok(res) => if res.len() > 0 {
                            Some(res[0].end_time)
                        } else {
                            None
                        },
                    };
                    let moved = match latest_end {
                        None => false,
                        Some(i) => duration.millis > now.millis || i.millis > now.millis
                            - duration.millis,
                    };
                    let start = match latest_end {
                        None => given_start,
                        Some(i) => if i.millis < given_start.millis {
                            given_start
                        } else {
                            i
                        },
                    };
                    let message = if moved {
                        let took = human_duration(now.since_or_zero(&start));
                        concat(
                            "Recorded, but adjusted to the end of your last task. Resulting in just ",
                            took.as_str(),
                        )
                    } else {
                        String::from_str("Well recorded.")
                    };
                    write_one(
                        insert_do(user, start, now, project_name, task),
                        Replies { written: say(message), failed: OnFailure::Report },
                    )
                },
            },
        },
    }
}

} // verus!
