//! Operation evaluation: one action, or a set of actions side by side.

use crate::failure::ThespianResult;
use crate::join::{joined, recorded, unreported, Join};
use crate::workflow::{Action, ActionView, Operation, OperationView};
use vstd::prelude::*;

verus! {

/// What the driver of an operation must do next.
#[derive(Clone, Copy, Debug, PartialEq, Eq)]
pub enum Barrier {
    /// Start every branch, all at once: this many of them.
    Launch(usize),
    /// Wait for another branch to end.
    Await,
    /// Every branch has ended and the operation ends in this result.
    Finish(ThespianResult),
}

/// The actions of an operation, in the order in which they were declared. A
/// single action is a set of one.
pub open spec fn branches_of(operation: OperationView) -> Seq<ActionView> {
    match operation {
        OperationView::ConcurrentActions(actions) => actions,
        OperationView::Action(action) => seq![action],
    }
}

/// What is directed once the slots stand as given: wait while a branch is
/// outstanding, then finish with the verdict of the join.
pub open spec fn barrier_of(slots: Seq<Option<ThespianResult>>) -> Barrier {
    match joined(slots) {
        Some(verdict) => Barrier::Finish(verdict),
        None => Barrier::Await,
    }
}

/// One step of an operation. Without an event the operation starts: every
/// branch is launched, and an operation without branches has succeeded. With
/// the report of a branch the report is taken down, and the operation ends
/// when the last branch has reported, never earlier.
pub open spec fn operation_step(
    operation: OperationView,
    slots: Seq<Option<ThespianResult>>,
    event: Option<(usize, ThespianResult)>,
) -> (Seq<Option<ThespianResult>>, Barrier) {
    match event {
        None => (
            unreported(branches_of(operation).len()),
            if branches_of(operation).len() == 0 {
                Barrier::Finish(Ok(()))
            } else {
                Barrier::Launch(branches_of(operation).len() as usize)
            },
        ),
        Some((branch, result)) => (
            recorded(slots, branch as int, result),
            barrier_of(recorded(slots, branch as int, result)),
        ),
    }
}

impl Operation {
    /// The number of actions of this operation.
    pub fn branches(&self) -> (count: usize)
        ensures
            count == branches_of(self@).len(),
    {
        match self {
            Operation::ConcurrentActions(actions) => actions.len(),
            Operation::Action(_) => 1,
        }
    }

    /// The action of this operation at `index`, in the order of declaration.
    pub fn branch(&self, index: usize) -> (action: Option<&Action>)
        ensures
            match action {
                Some(found) => index < branches_of(self@).len() && found@ == branches_of(
                    self@,
                )[index as int],
                None => index >= branches_of(self@).len(),
            },
    {
        match self {
            Operation::ConcurrentActions(actions) => {
                if index < actions.len() {
                    Some(&actions[index])
                } else {
                    None
                }
            },
            Operation::Action(action) => {
                if index == 0 {
                    Some(action)
                } else {
                    None
                }
            },
        }
    }

    /// Takes this operation one step further: from what its branches have
    /// reported so far and the event that the driver reports, to the reports
    /// as they stand now and what the driver must do next.
    pub fn enact(&self, join: Join, event: Option<(usize, ThespianResult)>) -> (step: (
        Join,
        Barrier,
    ))
        ensures
            (step.0@, step.1) == operation_step(self@, join@, event),
    {
        match event {
            None => {
                let count = self.branches();
                let fresh = Join::of(count);
                if count == 0 {
                    (fresh, Barrier::Finish(Ok(())))
                } else {
                    (fresh, Barrier::Launch(count))
                }
            },
            Some((branch, result)) => {
                let mut join = join;
                join.record(branch, result);
                let barrier = match join.outcome() {
                    Some(verdict) => Barrier::Finish(verdict),
                    None => Barrier::Await,
                };
                (join, barrier)
            },
        }
    }
}

} // verus!
