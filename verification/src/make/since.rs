//! `!since`: what a user has done since some time.
use super::common::{Reply, ReplyView, reply_view};
use crate::html::{element_text, element_views, group, table, Element, ElementView};
use crate::store::{AggregatedTaskRecord, StoreResult};
use crate::text::{join, joined, strings_view};
use crate::util::{human_duration, humanized, make_table_row, row_view};
use vstd::prelude::*;

verus! {

/// The line of `rec`: its project, its task and how long it took.
pub open spec fn since_line(rec: AggregatedTaskRecord) -> Seq<char> {
    rec.project@ + "\t"@ + rec.task@ + "\t"@ + humanized(rec.duration.millis)
}

/// The table row of `rec`: its project, its task and how long it took.
pub open spec fn since_row(rec: AggregatedTaskRecord) -> ElementView {
    row_view(seq![rec.project@, rec.task@, humanized(rec.duration.millis)])
}

/// What `!since` says: for each piece of work a line, and a table with a
/// row for each; nothing where the store has no answer.
pub open spec fn since_reply(results: StoreResult<Vec<AggregatedTaskRecord>>) -> ReplyView {
    match results {
        Err(_) => None,
        Ok(recs) => Some(
            (
                joined(recs@.map_values(|rec: AggregatedTaskRecord| since_line(rec)), "\n"@),
                element_text(
                    group(
                        "table"@,
                        recs@.map_values(|rec: AggregatedTaskRecord| since_row(rec)),
                    ),
                ),
            ),
        ),
    }
}

/// What `!since` says, where `results` is what the store has of the
/// user's work since the time asked for.
pub fn since(results: &StoreResult<Vec<AggregatedTaskRecord>>) -> (r: Reply)
    requires
        results matches Ok(recs) ==> forall|i: int| 0 <= i < recs@.len() ==> (#[trigger] recs@[i]).wf(),
    ensures
        reply_view(r) == since_reply(*results),
{
    match results {
        Err(_) => None,
        Ok(recs) => {
            let mut left: Vec<String> = Vec::new();
            let mut rows: Vec<Element> = Vec::new();
            let mut i: usize = 0;
            while i < recs.len()
                invariant
                    i <= recs.len(),
                    left.len() == i,
                    rows.len() == i,
                    forall|j: int| 0 <= j < recs@.len() ==> (#[trigger] recs@[j]).wf(),
                    forall|j: int| 0 <= j < i ==> (#[trigger] left@[j])@ == since_line(recs@[j]),
                    forall|j: int| 0 <= j < i ==> (#[trigger] rows@[j])@ == since_row(recs@[j]),
                decreases recs.len() - i,
            {
                let rec = &recs[i];
                assert(rec.wf());
                let took = human_duration(rec.duration);
                let mut line = rec.project.clone();
                line.append("\t");
                line.append(rec.task.as_str());
                line.append("\t");
                line.append(took.as_str());
                assert(line@ =~= since_line(*rec));
                left.push(line);
                let cells = vec![rec.project.clone(), rec.task.clone(), took];
                assert(strings_view(cells@) =~= seq![
                    rec.project@,
                    rec.task@,
                    humanized(rec.duration.millis),
                ]);
                rows.push(make_table_row(cells));
                i = i + 1;
            }
            proof {
                assert(strings_view(left@) =~= recs@.map_values(
                    |rec: AggregatedTaskRecord| since_line(rec),
                ));
                assert(element_views(rows@) =~= recs@.map_values(
                    |rec: AggregatedTaskRecord| since_row(rec),
                ));
            }
            Some((join(&left, "\n"), table(rows).as_string()))
        },
    }
}

} // verus!
