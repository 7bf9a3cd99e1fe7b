//! The join of actions that run side by side.
//!
//! Every branch runs to its end, whatever the others do. Only when all have
//! ended is the verdict read off, in the order in which the branches were
//! declared: the first failure found, or success if there is none.

use crate::failure::ThespianResult;
use vstd::prelude::*;

verus! {

/// The first failure of `results` in their order, or success if none failed.
pub open spec fn first_failure(results: Seq<ThespianResult>) -> ThespianResult
    decreases results.len(),
{
    if results.len() == 0 {
        Ok(())
    } else if results[0] is Err {
        results[0]
    } else {
        first_failure(results.skip(1))
    }
}

/// Whether every branch has reported.
pub open spec fn complete(slots: Seq<Option<ThespianResult>>) -> bool {
    forall|i: int| 0 <= i < slots.len() ==> (#[trigger] slots[i]) is Some
}

/// The results that the branches reported, in the order of the branches.
pub open spec fn gathered(slots: Seq<Option<ThespianResult>>) -> Seq<ThespianResult> {
    Seq::new(slots.len(), |i: int| slots[i].unwrap())
}

/// The verdict of a join: nothing while a branch is outstanding, then the
/// first failure in the order of the branches, or success.
pub open spec fn joined(slots: Seq<Option<ThespianResult>>) -> Option<ThespianResult> {
    if complete(slots) {
        Some(first_failure(gathered(slots)))
    } else {
        None
    }
}

/// The slots once `branch` has reported `result`. A report for a branch that
/// does not exist, or that has reported before, changes nothing.
pub open spec fn recorded(
    slots: Seq<Option<ThespianResult>>,
    branch: int,
    result: ThespianResult,
) -> Seq<Option<ThespianResult>> {
    if 0 <= branch < slots.len() && slots[branch] is None {
        slots.update(branch, Some(result))
    } else {
        slots
    }
}

/// As many slots as there are branches, none of which has reported.
pub open spec fn unreported(branches: nat) -> Seq<Option<ThespianResult>> {
    Seq::new(branches, |i: int| None)
}

/// What the branches of one concurrent operation have reported so far.
#[derive(Debug)]
pub struct Join {
    slots: Vec<Option<ThespianResult>>,
}

impl View for Join {
    type V = Seq<Option<ThespianResult>>;

    closed spec fn view(&self) -> Seq<Option<ThespianResult>> {
        self.slots@
    }
}

impl Join {
    /// A join without branches.
    pub fn new() -> (join: Join)
        ensures
            join@ == unreported(0),
    {
        let join = Join { slots: Vec::new() };
        assert(join@ =~= unreported(0));
        join
    }

    /// A join of `branches` branches, none of which has reported.
    pub fn of(branches: usize) -> (join: Join)
        ensures
            join@ == unreported(branches as nat),
    {
        let mut slots: Vec<Option<ThespianResult>> = Vec::new();
        let mut count: usize = 0;
        while count < branches
            invariant
                count <= branches,
                slots@ =~= unreported(count as nat),
            decreases branches - count,
        {
            slots.push(None);
            count = count + 1;
        }
        Join { slots }
    }

    /// The number of branches.
    pub fn branches(&self) -> (count: usize)
        ensures
            count == self@.len(),
    {
        self.slots.len()
    }

    /// Takes down that `branch` ended in `result`. Says whether the report was
    /// taken: it is not for a branch that does not exist or has reported before.
    pub fn record(&mut self, branch: usize, result: ThespianResult) -> (taken: bool)
        ensures
            taken == (branch < old(self)@.len() && old(self)@[branch as int] is None),
            final(self)@ == recorded(old(self)@, branch as int, result),
    {
        if branch < self.slots.len() {
            if self.slots[branch].is_none() {
                self.slots.set(branch, Some(result));
                return true;
            }
        }
        false
    }

    /// The verdict, once every branch has reported.
    pub fn outcome(&self) -> (verdict: Option<ThespianResult>)
        ensures
            verdict == joined(self@),
    {
        let mut found: ThespianResult = Ok(());
        let mut index: usize = self.slots.len();
        while index > 0
            invariant
                index <= self.slots.len(),
                forall|i: int| index <= i < self.slots.len() ==> (#[trigger] self.slots@[i]) is Some,
                found == first_failure(gathered(self.slots@).skip(index as int)),
            decreases index,
        {
            index = index - 1;
            match self.slots[index] {
                None => {
                    return None;
                },
                Some(result) => {
                    proof {
                        let rest = gathered(self.slots@).skip(index as int);
                        assert(rest.skip(1) =~= gathered(self.slots@).skip(index + 1));
                        assert(rest[0] == result);
                    }
                    if result.is_err() {
                        found = result;
                    }
                },
            }
        }
        assert(gathered(self.slots@).skip(0) =~= gathered(self.slots@));
        Some(found)
    }
}

} // verus!
