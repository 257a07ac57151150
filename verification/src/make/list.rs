//! `!ls`: the tasks under way.
use super::common::{plain, say, Reply, ReplyView, reply_view};
use crate::store::{StoreResult, TaskRecord};
use crate::text::{join, joined, strings_view};
use crate::time::SystemTime;
use crate::util::{display_username, human_duration, humanized, shown_name};
use vstd::prelude::*;

verus! {

/// The line that says who is doing what and until when: the time that
/// task `rec` still takes at `now`, or why there is no such time.
pub open spec fn list_line(rec: TaskRecord, now: SystemTime) -> Seq<char> {
    shown_name(rec.username@) + " is "@ + rec.task@ + "ing on "@ + rec.project@
        + ", they will be done in "@ + if rec.end_time.millis >= now.millis {
        humanized((rec.end_time.millis - now.millis) as u64)
    } else {
        "second time provided was later than self"@
    }
}

/// What `!ls` says: a line for each task under way, or that there is none;
/// nothing where the store has no answer.
pub open spec fn list_reply(now: SystemTime, current: StoreResult<Vec<TaskRecord>>) -> ReplyView {
    match current {
        Err(_) => None,
        Ok(recs) => if recs@.len() > 0 {
            plain(joined(recs@.map_values(|rec: TaskRecord| list_line(rec, now)), "\n"@))
        } else {
            plain("Time to !do something."@)
        },
    }
}

/// What `!ls` says at `now`, where `current` is what the store has of
/// tasks under way.
pub fn list(now: SystemTime, current: &StoreResult<Vec<TaskRecord>>) -> (r: Reply)
    requires
        current matches Ok(recs) ==> forall|i: int| 0 <= i < recs@.len() ==> (#[trigger] recs@[i]).wf(),
    ensures
        reply_view(r) == list_reply(now, *current),
{
    match current {
        Err(_) => None,
        Ok(recs) => {
            if recs.len() > 0 {
                let mut lines: Vec<String> = Vec::new();
                let mut i: usize = 0;
                while i < recs.len()
                    invariant
                        i <= recs.len(),
                        lines.len() == i,
                        forall|j: int| 0 <= j < recs@.len() ==> (#[trigger] recs@[j]).wf(),
                        forall|j: int|
                            0 <= j < i ==> (#[trigger] lines@[j])@ == list_line(recs@[j], now),
                    decreases recs.len() - i,
                {
                    let rec = &recs[i];
                    assert(rec.wf());
                    let mut line = display_username(rec.username.as_str());
                    line.append(" is ");
                    line.append(rec.task.as_str());
                    line.append("ing on ");
                    line.append(rec.project.as_str());
                    line.append(", they will be done in ");
                    match rec.end_time.duration_since(&now) {
                        Some(duration) => {
                            let left = human_duration(duration);
                            line.append(left.as_str());
                        },
                        None => {
                            line.append("second time provided was later than self");
                        },
                    }
                    assert(line@ =~= list_line(*rec, now));
                    lines.push(line);
                    i = i + 1;
                }
                proof {
                    assert(strings_view(lines@) =~= recs@.map_values(
                        |rec: TaskRecord| list_line(rec, now),
                    ));
                }
                say(join(&lines, "\n"))
            } else {
                say(String::from_str("Time to !do something."))
            }
        },
    }
}

} // verus!
