//! Shells of time: a project as a span of time with the units of work that
//! it is to be filled with.
use crate::time::{Duration, SystemTime};
use vstd::prelude::*;

verus! {

/// The kind of work of a unit.
#[derive(Clone, Copy, Debug, PartialEq, Eq, Structural)]
pub enum TypeOfWork {
    Dev,
    Admin,
}

/// Whether a unit of work is still to do.
#[derive(Clone, Copy, Debug, PartialEq, Eq, Structural)]
pub enum UnitStatus {
    Pending,
    Done,
}

/// The name of a shell.
pub type Ident = String;

/// A unit of work for the shell `id`.
#[derive(Debug)]
pub struct TimeUnit {
    id: Ident,
    work: TypeOfWork,
    duration: Duration,
    status: UnitStatus,
}

/// What a [`TimeUnit`] says.
pub struct TimeUnitView {
    pub id: Seq<char>,
    pub work: TypeOfWork,
    pub duration: Duration,
    pub status: UnitStatus,
}

impl View for TimeUnit {
    type V = TimeUnitView;

    closed spec fn view(&self) -> TimeUnitView {
        TimeUnitView { id: self.id@, work: self.work, duration: self.duration, status: self.status }
    }
}

/// What the units `units` say, one after the other.
pub open spec fn units_view(units: Seq<TimeUnit>) -> Seq<TimeUnitView> {
    units.map_values(|u: TimeUnit| u@)
}

impl TimeUnit {
    /// A unit of `duration` of the work `work` for the shell `id`, still to do.
    pub fn new(id: Ident, work: TypeOfWork, duration: Duration) -> (u: TimeUnit)
        ensures
            u@ == (TimeUnitView { id: id@, work, duration, status: UnitStatus::Pending }),
    {
        TimeUnit { id, work, duration, status: UnitStatus::Pending }
    }

    /// Marks this unit as done.
    pub fn consume(&mut self)
        ensures
            final(self)@ == (TimeUnitView { status: UnitStatus::Done, ..old(self)@ }),
    {
        self.status = UnitStatus::Done;
    }

    /// A unit that says the same.
    fn duplicate(&self) -> (u: TimeUnit)
        ensures
            u@ == self@,
    {
        TimeUnit {
            id: self.id.clone(),
            work: self.work,
            duration: self.duration,
            status: self.status,
        }
    }
}

/// The test whether a unit has the status `status`.
pub open spec fn has_status(status: UnitStatus) -> spec_fn(TimeUnitView) -> bool {
    |u: TimeUnitView| u.status == status
}

/// The units of `units` that have the status `status`.
fn with_status(units: &Vec<TimeUnit>, status: UnitStatus) -> (found: Vec<TimeUnit>)
    ensures
        units_view(found@) == units_view(units@).filter(has_status(status)),
{
    let ghost all = units_view(units@);
    let mut found: Vec<TimeUnit> = Vec::new();
    let mut i: usize = 0;
    proof {
        reveal(Seq::filter);
        assert(all.take(0).filter(has_status(status)) =~= units_view(found@));
    }
    while i < units.len()
        invariant
            i <= units.len(),
            all == units_view(units@),
            units_view(found@) == all.take(i as int).filter(has_status(status)),
        decreases units.len() - i,
    {
        proof {
            reveal(Seq::filter);
            assert(all.take(i + 1).drop_last() =~= all.take(i as int));
            assert(all.take(i + 1).last() == units@[i as int]@);
        }
        if units[i].status == status {
            let ghost before = units_view(found@);
            found.push(units[i].duplicate());
            assert(units_view(found@) =~= before.push(units@[i as int]@));
        }
        i = i + 1;
    }
    proof {
        assert(all.take(i as int) =~= all);
    }
    found
}

/// The units of `units` that are still to do.
pub fn pendings(units: &Vec<TimeUnit>) -> (found: Vec<TimeUnit>)
    ensures
        units_view(found@) == units_view(units@).filter(has_status(UnitStatus::Pending)),
{
    with_status(units, UnitStatus::Pending)
}

/// The units of `units` that are done.
pub fn dones(units: &Vec<TimeUnit>) -> (found: Vec<TimeUnit>)
    ensures
        units_view(found@) == units_view(units@).filter(has_status(UnitStatus::Done)),
{
    with_status(units, UnitStatus::Done)
}

/// The time of the units `units`, added up, in milliseconds.
pub open spec fn total_time(units: Seq<TimeUnitView>) -> int
    decreases units.len(),
{
    if units.len() == 0 {
        0
    } else {
        total_time(units.drop_last()) + units.last().duration.millis
    }
}

/// The time of the first units is no more than that of all.
proof fn lemma_total_time_grows(units: Seq<TimeUnitView>, n: int)
    requires
        0 <= n <= units.len(),
    ensures
        0 <= total_time(units.take(n)) <= total_time(units),
    decreases units.len() - n,
{
    if n == units.len() {
        assert(units.take(n) =~= units);
        lemma_total_time_not_negative(units);
    } else {
        lemma_total_time_grows(units, n + 1);
        assert(units.take(n + 1).drop_last() =~= units.take(n));
        lemma_total_time_not_negative(units.take(n));
    }
}

/// No units add up to less than no time.
proof fn lemma_total_time_not_negative(units: Seq<TimeUnitView>)
    ensures
        0 <= total_time(units),
    decreases units.len(),
{
    if units.len() > 0 {
        lemma_total_time_not_negative(units.drop_last());
    }
}

/// The time of the units `units`, added up.
pub fn sum_time_units(units: &Vec<TimeUnit>) -> (sum: Duration)
    requires
        total_time(units_view(units@)) <= u64::MAX,
    ensures
        sum.millis == total_time(units_view(units@)),
{
    let ghost all = units_view(units@);
    let mut total: u64 = 0;
    let mut i: usize = 0;
    while i < units.len()
        invariant
            i <= units.len(),
            all == units_view(units@),
            total == total_time(all.take(i as int)),
            total_time(all) <= u64::MAX,
        decreases units.len() - i,
    {
        proof {
            assert(all.take(i + 1).drop_last() =~= all.take(i as int));
            assert(all.take(i + 1).last() == units@[i as int]@);
            lemma_total_time_grows(all, i + 1);
        }
        total = total + units[i].duration.millis;
        i = i + 1;
    }
    proof {
        assert(all.take(i as int) =~= all);
    }
    Duration { millis: total }
}

/// A span of time under a name.
#[derive(Debug)]
pub struct Shell {
    pub id: Ident,
    pub start: SystemTime,
    pub end: SystemTime,
}

impl Shell {
    /// The shell `id` from `start` to `end`.
    pub fn new(id: Ident, start: SystemTime, end: SystemTime) -> (s: Shell)
        ensures
            s.id@ == id@,
            s.start == start,
            s.end == end,
    {
        Shell { id, start, end }
    }

    /// A shell that says the same.
    fn duplicate(&self) -> (s: Shell)
        ensures
            s.id@ == self.id@,
            s.start == self.start,
            s.end == self.end,
    {
        Shell { id: self.id.clone(), start: self.start, end: self.end }
    }
}

/// Shells, and the units of work that go into them.
#[derive(Debug)]
pub struct SpaceTime {
    shells: Vec<Shell>,
    time_units: Vec<TimeUnit>,
}

/// The test whether a shell has the name `id`.
pub open spec fn named(id: Seq<char>) -> spec_fn(Shell) -> bool {
    |s: Shell| s.id@ == id
}

/// The test whether a unit is for the shell `id` and still to do.
pub open spec fn pending_for(id: Seq<char>) -> spec_fn(TimeUnitView) -> bool {
    |u: TimeUnitView| u.id == id && u.status == UnitStatus::Pending
}

/// Where the first of `units` stands that is for the shell `id` and still
/// to do; the length of `units` where there is none.
pub open spec fn first_pending(units: Seq<TimeUnitView>, id: Seq<char>) -> int
    decreases units.len(),
{
    if units.len() == 0 {
        0
    } else if pending_for(id)(units[0]) {
        0
    } else {
        1 + first_pending(units.skip(1), id)
    }
}

impl SpaceTime {
    /// The shells.
    pub closed spec fn shells(self) -> Seq<Shell> {
        self.shells@
    }

    /// What the units say.
    pub closed spec fn units(self) -> Seq<TimeUnitView> {
        units_view(self.time_units@)
    }

    /// There is a shell of the name `id`.
    pub open spec fn has_shell(self, id: Seq<char>) -> bool {
        exists|i: int| 0 <= i < self.shells().len() && (#[trigger] self.shells()[i]).id@ == id
    }

    /// No shells and no units.
    pub fn new() -> (st: SpaceTime)
        ensures
            st.shells() == Seq::<Shell>::empty(),
            st.units() == Seq::<TimeUnitView>::empty(),
    {
        let st = SpaceTime { shells: Vec::new(), time_units: Vec::new() };
        assert(st.units() =~= Seq::empty());
        st
    }

    /// Adds the shell `id` from `start` to `end`.
    pub fn add_shell(&mut self, id: Ident, start: SystemTime, end: SystemTime)
        ensures
            final(self).shells().len() == old(self).shells().len() + 1,
            final(self).shells().drop_last() == old(self).shells(),
            final(self).shells().last().id@ == id@,
            final(self).shells().last().start == start,
            final(self).shells().last().end == end,
            final(self).units() == old(self).units(),
    {
        self.shells.push(Shell::new(id, start, end));
        assert(self.shells@.drop_last() =~= old(self).shells@);
    }

    /// The shells.
    pub fn get_shells(&self) -> (shells: &Vec<Shell>)
        ensures
            shells@ == self.shells(),
    {
        &self.shells
    }

    /// Adds a unit of `duration` of the work `work` for the shell `id`.
    pub fn add_time_unit(&mut self, id: Ident, work: TypeOfWork, duration: Duration)
        ensures
            final(self).units() == old(self).units().push(
                TimeUnitView { id: id@, work, duration, status: UnitStatus::Pending },
            ),
            final(self).shells() == old(self).shells(),
    {
        self.time_units.push(TimeUnit::new(id, work, duration));
        assert(self.units() =~= old(self).units().push(
            TimeUnitView { id: id@, work, duration, status: UnitStatus::Pending },
        ));
    }

    /// The first shell of the name `id`.
    pub fn find_shell(&self, id: &Ident) -> (found: Option<Shell>)
        ensures
            found is Some <==> self.has_shell(id@),
            found matches Some(s) ==> exists|i: int|
                0 <= i < self.shells().len() && (#[trigger] self.shells()[i]).id@ == id@
                    && s.id@ == id@ && s.start == self.shells()[i].start && s.end
                    == self.shells()[i].end && forall|j: int|
                    0 <= j < i ==> (#[trigger] self.shells()[j]).id@ != id@,
    {
        let mut i: usize = 0;
        while i < self.shells.len()
            invariant
                i <= self.shells.len(),
                forall|j: int| 0 <= j < i ==> (#[trigger] self.shells@[j]).id@ != id@,
            decreases self.shells.len() - i,
        {
            if self.shells[i].id == *id {
                assert(self.shells()[i as int].id@ == id@);
                return Some(self.shells[i].duplicate());
            }
            i = i + 1;
        }
        None
    }

    /// The units for the shell `id` that are still to do; `None` where
    /// there is no such shell.
    pub fn remaining(&self, id: &Ident) -> (found: Option<Vec<TimeUnit>>)
        ensures
            found is Some <==> self.has_shell(id@),
            found matches Some(units) ==> units_view(units@) == self.units().filter(
                pending_for(id@),
            ),
    {
        match self.find_shell(id) {
            None => None,
            Some(_) => {
                let ghost all = self.units();
                let mut found: Vec<TimeUnit> = Vec::new();
                let mut i: usize = 0;
                proof {
                    reveal(Seq::filter);
                    assert(all.take(0).filter(pending_for(id@)) =~= units_view(found@));
                }
                while i < self.time_units.len()
                    invariant
                        i <= self.time_units.len(),
                        all == units_view(self.time_units@),
                        units_view(found@) == all.take(i as int).filter(pending_for(id@)),
                    decreases self.time_units.len() - i,
                {
                    proof {
                        reveal(Seq::filter);
                        assert(all.take(i + 1).drop_last() =~= all.take(i as int));
                        assert(all.take(i + 1).last() == self.time_units@[i as int]@);
                    }
                    let u = &self.time_units[i];
                    if u.id == *id && u.status == UnitStatus::Pending {
                        let ghost before = units_view(found@);
                        found.push(u.duplicate());
                        assert(units_view(found@) =~= before.push(self.time_units@[i as int]@));
                    }
                    i = i + 1;
                }
                proof {
                    assert(all.take(i as int) =~= all);
                }
                Some(found)
            },
        }
    }

    /// Marks as done the first unit for the shell `id` that is still to
    /// do. Nothing changes where there is no such shell or no such unit.
    pub fn consume_time_unit(&mut self, id: &Ident)
        ensures
            final(self).shells() == old(self).shells(),
            ({
                let at = first_pending(old(self).units(), id@);
                if old(self).has_shell(id@) && at < old(self).units().len() {
                    final(self).units() == old(self).units().update(
                        at,
                        TimeUnitView { status: UnitStatus::Done, ..old(self).units()[at] },
                    )
                } else {
                    final(self).units() == old(self).units()
                }
            }),
    {
        let s = self.find_shell(id);
        let ghost all = self.units();
        if s.is_some() {
            let mut i: usize = 0;
            assert(all.skip(0) =~= all);
            while i < self.time_units.len()
                invariant
                    i <= self.time_units.len(),
                    *self == *old(self),
                    old(self).has_shell(id@),
                    all == units_view(self.time_units@),
                    first_pending(all, id@) == i + first_pending(all.skip(i as int), id@),
                decreases self.time_units.len() - i,
            {
                proof {
                    assert(all.skip(i as int)[0] == all[i as int]);
                    assert(all.skip(i as int).skip(1) =~= all.skip(i + 1));
                }
                if self.time_units[i].id == *id && self.time_units[i].status
                    == UnitStatus::Pending {
                    assert(pending_for(id@)(all.skip(i as int)[0]));
                    assert(first_pending(all, id@) == i);
                    self.time_units[i].consume();
                    assert(self.units() =~= all.update(
                        i as int,
                        TimeUnitView { status: UnitStatus::Done, ..all[i as int] },
                    ));
                    return ;
                }
                i = i + 1;
            }
        }
    }
}

} // verus!
