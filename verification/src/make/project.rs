//! The work on a project, task by task.
use super::common::{reply_view, Reply, ReplyView};
use crate::html::{
    code, div, element_text, element_views, group, table, text_element, wrap, Element, ElementView,
};
use crate::store::{AggregatedTaskRecord, ProjectRecord, StoreResult};
use crate::text::{concat, decimal, i64_to_string, join, joined, signed_decimal, strings_view, u128_to_string};
use crate::time::SystemTime;
use crate::util::{dur, human_duration, humanized, make_table_row, row_view, stored};
use vstd::prelude::*;

verus! {

/// The work `rec` touches the stretch from `start` to `end`: it starts or
/// ends strictly within it.
pub open spec fn touches(start: SystemTime, end: SystemTime) -> spec_fn(AggregatedTaskRecord) -> bool {
    |rec: AggregatedTaskRecord|
        {
            ||| (start.millis < rec.start_time.millis && rec.start_time.millis < end.millis)
            ||| (start.millis < rec.end_time.millis && rec.end_time.millis < end.millis)
            ||| (start.millis < rec.start_time.millis && rec.end_time.millis < end.millis)
        }
}

/// The work that `found` points at.
pub open spec fn pointed_work(found: Seq<&AggregatedTaskRecord>) -> Seq<AggregatedTaskRecord> {
    found.map_values(|rec: &AggregatedTaskRecord| *rec)
}

/// The work of `recs` that touches the stretch from `start` to `end`.
pub fn find_items(recs: &Vec<AggregatedTaskRecord>, start: SystemTime, end: SystemTime) -> (found:
    Vec<&AggregatedTaskRecord>)
    ensures
        pointed_work(found@) == recs@.filter(touches(start, end)),
{
    let mut found: Vec<&AggregatedTaskRecord> = Vec::new();
    let mut i: usize = 0;
    proof {
        reveal(Seq::filter);
        assert(pointed_work(found@) =~= recs@.take(0).filter(touches(start, end)));
    }
    while i < recs.len()
        invariant
            i <= recs.len(),
            pointed_work(found@) == recs@.take(i as int).filter(touches(start, end)),
        decreases recs.len() - i,
    {
        proof {
            reveal(Seq::filter);
            assert(recs@.take(i + 1).drop_last() =~= recs@.take(i as int));
            assert(recs@.take(i + 1).last() == recs@[i as int]);
        }
        let rec = &recs[i];
        if (start.millis < rec.start_time.millis && rec.start_time.millis < end.millis) || (
        start.millis < rec.end_time.millis && rec.end_time.millis < end.millis) || (start.millis
            < rec.start_time.millis && rec.end_time.millis < end.millis) {
            let ghost before = pointed_work(found@);
            found.push(rec);
            assert(pointed_work(found@) =~= before.push(recs@[i as int]));
        }
        i = i + 1;
    }
    proof {
        assert(recs@.take(i as int) =~= recs@);
    }
    found
}

/// The milliseconds from the start to the end of each piece of `recs`,
/// added up.
pub open spec fn spent_millis(recs: Seq<AggregatedTaskRecord>) -> int
    decreases recs.len(),
{
    if recs.len() == 0 {
        0
    } else {
        spent_millis(recs.drop_last()) + stored(
            recs.last().end_time.elapsed_since(recs.last().start_time).millis,
        )
    }
}

/// The line of `rec`: who did it, the task and how long it took.
pub open spec fn project_line(rec: AggregatedTaskRecord) -> Seq<char> {
    rec.username@ + "\t"@ + rec.task@ + "\t"@ + humanized(rec.duration.millis)
}

/// The table row of `rec`: who did it, the task and how long it took.
pub open spec fn project_row(rec: AggregatedTaskRecord) -> ElementView {
    row_view(seq![rec.username@, rec.task@, humanized(rec.duration.millis)])
}

/// The whole hours set aside for the project `p`: none where nothing is.
pub open spec fn provisioned(p: ProjectRecord) -> int {
    match p.provision {
        None => 0,
        Some(d) => stored(d.millis) / 3_600_000,
    }
}

/// What is said of the project that the store has handed out as
/// `available`, on which the work `recs` was done. Nothing is said where
/// the store does not hand out the work.
pub open spec fn project_reply(
    recs: StoreResult<Vec<AggregatedTaskRecord>>,
    available: StoreResult<ProjectRecord>,
) -> ReplyView {
    match recs {
        Err(_) => None,
        Ok(recs) => {
            let done = spent_millis(recs@);
            let lines = joined(
                recs@.map_values(|rec: AggregatedTaskRecord| project_line(rec)),
                "\n"@,
            );
            let rows = group(
                "table"@,
                recs@.map_values(|rec: AggregatedTaskRecord| project_row(rec)),
            );
            match available {
                Ok(p) => Some(
                    (
                        signed_decimal(provisioned(p)) + " hours available, "@ + decimal(
                            (done / 3_600_000) as nat,
                        ) + " hours done\n"@ + lines,
                        element_text(
                            group(
                                "div"@,
                                seq![
                                    group(
                                        "div"@,
                                        seq![
                                            wrap(
                                                "div"@,
                                                text_element(
                                                    "code"@,
                                                    "available: "@ + signed_decimal(
                                                        provisioned(p),
                                                    ) + " hours"@,
                                                ),
                                            ),
                                            wrap(
                                                "div"@,
                                                text_element(
                                                    "code"@,
                                                    "done: "@ + decimal((done / 3_600_000) as nat)
                                                        + " hours"@,
                                                ),
                                            ),
                                        ],
                                    ),
                                    rows,
                                ],
                            ),
                        ),
                    ),
                ),
                Err(_) => Some(
                    (
                        decimal(done as nat) + " done"@ + lines,
                        element_text(
                            group(
                                "div"@,
                                seq![text_element("code"@, "done: "@ + decimal(done as nat)), rows],
                            ),
                        ),
                    ),
                ),
            }
        },
    }
}

/// What is said of a project: the hours set aside and done, and the work
/// on it, task by task. `recs` is the work on the project, `available`
/// what the store has on the project.
pub fn project(
    recs: &StoreResult<Vec<AggregatedTaskRecord>>,
    available: &StoreResult<ProjectRecord>,
) -> (r: Reply)
    requires
        recs matches Ok(rs) ==> forall|i: int| 0 <= i < rs@.len() ==> (#[trigger] rs@[i]).wf(),
    ensures
        reply_view(r) == project_reply(*recs, *available),
{
    match recs {
        Err(_) => None,
        Ok(rs) => {
            let mut left: Vec<String> = Vec::new();
            let mut right: Vec<Element> = Vec::new();
            let mut done: u128 = 0;
            let mut i: usize = 0;
            while i < rs.len()
                invariant
                    i <= rs.len(),
                    left.len() == i,
                    right.len() == i,
                    forall|j: int| 0 <= j < rs@.len() ==> (#[trigger] rs@[j]).wf(),
                    forall|j: int| 0 <= j < i ==> (#[trigger] left@[j])@ == project_line(rs@[j]),
                    forall|j: int| 0 <= j < i ==> (#[trigger] right@[j])@ == project_row(rs@[j]),
                    done == spent_millis(rs@.take(i as int)),
                    done <= i * i64::MAX,
                decreases rs.len() - i,
            {
                proof {
                    assert(rs@.take(i + 1).drop_last() =~= rs@.take(i as int));
                    assert(rs@.take(i + 1).last() == rs@[i as int]);
                }
                let rec = &rs[i];
                assert(rec.wf());
                let took = human_duration(rec.duration);
                let mut line = rec.username.clone();
                line.append("\t");
                line.append(rec.task.as_str());
                line.append("\t");
                line.append(took.as_str());
                assert(line@ =~= project_line(*rec));
                left.push(line);
                let cells = vec![rec.username.clone(), rec.task.clone(), took];
                assert(strings_view(cells@) =~= seq![
                    rec.username@,
                    rec.task@,
                    humanized(rec.duration.millis),
                ]);
                right.push(make_table_row(cells));
                done = done + dur(&rec.end_time.since_or_zero(&rec.start_time)) as u128;
                i = i + 1;
            }
            proof {
                assert(rs@.take(i as int) =~= rs@);
                assert(strings_view(left@) =~= rs@.map_values(
                    |rec: AggregatedTaskRecord| project_line(rec),
                ));
                assert(element_views(right@) =~= rs@.map_values(
                    |rec: AggregatedTaskRecord| project_row(rec),
                ));
            }
            let lines = join(&left, "\n");
            let (mut h0, h1) = match available {
                Ok(p) => {
                    let hours: i64 = match p.provision {
                        None => 0,
                        Some(d) => dur(&d) / 3_600_000,
                    };
                    let have = i64_to_string(hours);
                    let did = u128_to_string(done / 3_600_000);
                    let mut h0 = have.clone();
                    h0.append(" hours available, ");
                    h0.append(did.as_str());
                    h0.append(" hours done\n");
                    let mut available_text = concat("available: ", have.as_str());
                    available_text.append(" hours");
                    let mut done_text = concat("done: ", did.as_str());
                    done_text.append(" hours");
                    let both = vec![div(code(available_text)), div(code(done_text))];
                    assert(element_views(both@) =~= seq![
                        wrap(
                            "div"@,
                            text_element(
                                "code"@,
                                "available: "@ + signed_decimal(provisioned(*p)) + " hours"@,
                            ),
                        ),
                        wrap(
                            "div"@,
                            text_element(
                                "code"@,
                                "done: "@ + decimal((spent_millis(rs@) / 3_600_000) as nat)
                                    + " hours"@,
                            ),
                        ),
                    ]);
                    (h0, div(both))
                },
                Err(_) => {
                    let did = u128_to_string(done);
                    (concat(did.as_str(), " done"), code(concat("done: ", did.as_str())))
                },
            };
            h0.append(lines.as_str());
            let parts = vec![h1, table(right)];
            assert(element_views(parts@) =~= seq![
                h1@,
                group("table"@, rs@.map_values(|rec: AggregatedTaskRecord| project_row(rec))),
            ]);
            Some((h0, div(parts).as_string()))
        },
    }
}

} // verus!
