//! `!avail`: how much a user can work per week.
use super::common::{or_sorry, plain, sorry, write_one, OnFailureView, RepliesView, Step, StepView};
use crate::store::{insert_avail, insert_avail_statement};
use crate::time::{Duration, SystemTime};
use vstd::prelude::*;

verus! {

/// What `!avail` does: it records the availability and says so.
pub open spec fn avail_step(user: Seq<char>, start: SystemTime, end: SystemTime, weekly: Duration) -> StepView {
    StepView::Write {
        statements: seq![insert_avail_statement(user, start, end, weekly)],
        then: RepliesView { written: plain("Registered"@), failed: OnFailureView::Say(sorry()) },
    }
}

/// Records that `user` can work `weekly` a week from `start` to `end`.
pub fn avail(user: String, start: SystemTime, end: SystemTime, weekly: Duration) -> (step: Step)
    ensures
        step@ == avail_step(user@, start, end, weekly),
{
    write_one(insert_avail(user, start, end, weekly), or_sorry("Registered"))
}

} // verus!
