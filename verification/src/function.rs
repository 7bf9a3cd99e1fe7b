//! Function evaluation: operations one after another, stopping at the first
//! that fails.

use crate::failure::{FailureReason, ThespianResult};
use crate::workflow::{Function, FunctionView, Operation, OperationView};
use vstd::prelude::*;

verus! {

/// How far the evaluation of a function has come: how many of its operations
/// have ended, and the failure of the last of them, if it failed.
#[derive(Clone, Copy, Debug, PartialEq, Eq)]
pub struct Sequence {
    pub performed: usize,
    pub failure: Option<FailureReason>,
}

/// What the driver of a function must do next.
#[derive(Debug)]
pub enum Turn<'a> {
    /// Evaluate this operation to its end and report its result.
    Perform(&'a Operation),
    /// The function has ended in this result.
    Finish(ThespianResult),
}

/// The mathematical value of a [`Turn`].
pub enum TurnView {
    Perform(OperationView),
    Finish(ThespianResult),
}

impl<'a> View for Turn<'a> {
    type V = TurnView;

    open spec fn view(&self) -> TurnView {
        match self {
            Turn::Perform(operation) => TurnView::Perform(operation@),
            Turn::Finish(result) => TurnView::Finish(*result),
        }
    }
}

/// The result that an evaluation stands at: the failure that ended it, or
/// success so far.
pub open spec fn result_of(failure: Option<FailureReason>) -> ThespianResult {
    match failure {
        Some(reason) => Err(reason),
        None => Ok(()),
    }
}

/// Whether an operation of the function is still to be evaluated: none has
/// failed and not all have ended.
pub open spec fn pending(function: FunctionView, run: Sequence) -> bool {
    run.failure is None && run.performed < function.operations.len()
}

/// The evaluation once the pending operation has reported `event`. A report
/// where nothing is pending, and no report at all, change nothing.
pub open spec fn advanced(
    function: FunctionView,
    run: Sequence,
    event: Option<ThespianResult>,
) -> Sequence {
    match event {
        Some(result) if pending(function, run) => Sequence {
            performed: (run.performed + 1) as usize,
            failure: match result {
                Ok(_) => None,
                Err(reason) => Some(reason),
            },
        },
        _ => run,
    }
}

/// What is directed where the evaluation stands at `run`: after a failure the
/// function ends in it at once, otherwise the next operation in order is due,
/// and after the last the function has succeeded.
pub open spec fn turn_of(function: FunctionView, run: Sequence) -> TurnView {
    match run.failure {
        Some(reason) => TurnView::Finish(Err(reason)),
        None => if run.performed < function.operations.len() {
            TurnView::Perform(function.operations[run.performed as int])
        } else {
            TurnView::Finish(Ok(()))
        },
    }
}

/// One step of a function: the report is taken down, then the next turn given.
pub open spec fn function_step(
    function: FunctionView,
    run: Sequence,
    event: Option<ThespianResult>,
) -> (Sequence, TurnView) {
    (advanced(function, run, event), turn_of(function, advanced(function, run, event)))
}

impl Sequence {
    /// The evaluation of a function of which nothing has run yet.
    pub fn new() -> (run: Sequence)
        ensures
            run == (Sequence { performed: 0, failure: None }),
    {
        Sequence { performed: 0, failure: None }
    }
}

impl Function {
    /// Takes this function one step further: from where its evaluation stands
    /// and the result that the driver reports for the pending operation, to
    /// where it stands now and what the driver must do next.
    pub fn enact<'a>(&'a self, run: Sequence, event: Option<ThespianResult>) -> (step: (
        Sequence,
        Turn<'a>,
    ))
        ensures
            (step.0, step.1@) == function_step(self@, run, event),
    {
        let mut run = run;
        if run.failure.is_none() && run.performed < self.operations.len() {
            match event {
                Some(Ok(_)) => {
                    run = Sequence { performed: run.performed + 1, failure: None };
                },
                Some(Err(reason)) => {
                    run = Sequence { performed: run.performed + 1, failure: Some(reason) };
                },
                None => {},
            }
        }
        match run.failure {
            Some(reason) => (run, Turn::Finish(Err(reason))),
            None => {
                if run.performed < self.operations.len() {
                    (run, Turn::Perform(&self.operations[run.performed]))
                } else {
                    (run, Turn::Finish(Ok(())))
                }
            },
        }
    }
}

} // verus!
