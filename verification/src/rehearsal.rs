//! Playing a workflow through against recorded observations.
//!
//! A rehearsal takes a workflow through every step that a live evaluation
//! would take, without waiting, sending or drawing: what the outside world did
//! for each sleep and each call is read from a list of observations, one for
//! each such step in the order in which the steps are declared. It follows the
//! directives of the same steps that a live driver follows.

use crate::chance::rolled;
use crate::failure::{success_is_one, FailureReason, ThespianResult};
use crate::function::{pending, result_of, turn_of, Sequence, Turn};
use crate::entry::{reply_of, Entry, Reply};
use crate::join::{complete, first_failure, gathered, Join};
use crate::operation::{barrier_of, branches_of, Barrier};
use crate::protocol::{Directive, Event, Stage};
use crate::trace_context::TraceContext;
use crate::workflow::{
    Action, ActionView, Function, FunctionView, Operation, OperationView, OptionalFunction,
};
use vstd::pervasive::unreached;
use vstd::prelude::*;

verus! {

/// What the outside world did for one sleep or one call.
#[derive(Clone, Copy, Debug, PartialEq, Eq)]
pub struct Observation {
    /// The bits of the uniform sample drawn after a sleep.
    pub sample: u64,
    /// Whether the connection for a call could be opened.
    pub connected: bool,
    /// Whether the downstream instance answered a call with success.
    pub answered: bool,
}

/// How a rehearsal ended.
#[derive(Clone, Copy, Debug, PartialEq, Eq)]
pub struct Rehearsal {
    /// The result of the workflow.
    pub result: ThespianResult,
    /// The position in the observations behind the last one that was read.
    pub consumed: usize,
    /// The time that the workflow takes on a clock that counts only sleeps,
    /// in milliseconds; it stops at the largest number that fits.
    pub elapsed_ms: u64,
}

/// How a rehearsal ended, with nothing cut to machine size.
pub struct Played {
    pub result: ThespianResult,
    pub consumed: nat,
    pub elapsed: nat,
}

/// How the branches of a concurrent operation ended.
pub struct PlayedBranches {
    pub results: Seq<ThespianResult>,
    pub consumed: nat,
    pub elapsed: nat,
}

/// The observation under which nothing fails: a sample that is no number, an
/// open connection and a successful answer.
pub open spec fn quiet() -> Observation {
    Observation { sample: u64::MAX, connected: true, answered: true }
}

/// The observation at `position`; behind the end of the list, the quiet one.
pub open spec fn observation_at(observations: Seq<Observation>, position: nat) -> Observation {
    if position < observations.len() {
        observations[position as int]
    } else {
        quiet()
    }
}

/// The position behind `position`, which does not move past the end.
pub open spec fn position_after(observations: Seq<Observation>, position: nat) -> nat {
    if position < observations.len() {
        position + 1
    } else {
        position
    }
}

/// What a call ends in under an observation: success if the connection was
/// opened and the answer was a success, a downstream call failure otherwise.
pub open spec fn called(observation: Observation) -> ThespianResult {
    if observation.connected && observation.answered {
        Ok(())
    } else {
        Err(FailureReason::DownstreamCallFailure)
    }
}

/// The larger of two numbers.
pub open spec fn larger(a: nat, b: nat) -> nat {
    if a >= b {
        a
    } else {
        b
    }
}

/// An action played from `from` on. A nested function is played as a
/// function. A call and a sleep read one observation each; a sleep takes its
/// duration, a call no time.
pub open spec fn play_action(action: ActionView, observations: Seq<Observation>, from: nat) -> Played
    decreases action, 0nat,
{
    match action {
        ActionView::Function(function) => play_function(function, observations, from),
        ActionView::CallService { .. } => Played {
            result: called(observation_at(observations, from)),
            consumed: position_after(observations, from),
            elapsed: 0,
        },
        ActionView::Sleep { duration_ms, failure_chance, .. } => Played {
            result: rolled(failure_chance, observation_at(observations, from).sample),
            consumed: position_after(observations, from),
            elapsed: duration_ms as nat,
        },
    }
}

/// The first `count` of `actions` played side by side from `from` on. Every
/// one of them is played to its end, whatever the others end in, each reading
/// its observations behind those of the one declared before it; together they
/// take as long as the longest of them.
pub open spec fn play_branches(
    actions: Seq<ActionView>,
    count: nat,
    observations: Seq<Observation>,
    from: nat,
) -> PlayedBranches
    decreases actions, count,
{
    if count == 0 || count > actions.len() {
        PlayedBranches { results: Seq::empty(), consumed: from, elapsed: 0 }
    } else {
        let before = play_branches(actions, (count - 1) as nat, observations, from);
        let last = play_action(actions[count - 1], observations, before.consumed);
        PlayedBranches {
            results: before.results.push(last.result),
            consumed: last.consumed,
            elapsed: larger(before.elapsed, last.elapsed),
        }
    }
}

/// An operation played from `from` on. A single action is played as it is.
/// Of a concurrent set every action is played, and the result is the first
/// failure in the order of declaration, or success.
pub open spec fn play_operation(
    operation: OperationView,
    observations: Seq<Observation>,
    from: nat,
) -> Played
    decreases operation, 0nat,
{
    match operation {
        OperationView::Action(action) => play_action(action, observations, from),
        OperationView::ConcurrentActions(actions) => {
            let branches = play_branches(actions, actions.len(), observations, from);
            Played {
                result: first_failure(branches.results),
                consumed: branches.consumed,
                elapsed: branches.elapsed,
            }
        },
    }
}

/// The first `count` of `operations` played one after another from `from`
/// on. After the first failure nothing more is played: no observation is
/// read and no time passes.
pub open spec fn play_operations(
    operations: Seq<OperationView>,
    count: nat,
    observations: Seq<Observation>,
    from: nat,
) -> Played
    decreases operations, count,
{
    if count == 0 || count > operations.len() {
        Played { result: Ok(()), consumed: from, elapsed: 0 }
    } else {
        let before = play_operations(operations, (count - 1) as nat, observations, from);
        if before.result is Err {
            before
        } else {
            let last = play_operation(operations[count - 1], observations, before.consumed);
            Played {
                result: last.result,
                consumed: last.consumed,
                elapsed: before.elapsed + last.elapsed,
            }
        }
    }
}

/// A function played from `from` on: all its operations, one after another.
pub open spec fn play_function(
    function: FunctionView,
    observations: Seq<Observation>,
    from: nat,
) -> Played
    decreases function, 0nat,
{
    play_operations(function.operations, function.operations.len(), observations, from)
}

/// A request to an entry point played from `from` on: the bound function, or
/// nothing at all where none is bound.
pub open spec fn play_entry(
    bound: Option<FunctionView>,
    observations: Seq<Observation>,
    from: nat,
) -> Played {
    match bound {
        Some(function) => play_function(function, observations, from),
        None => Played { result: Ok(()), consumed: from, elapsed: 0 },
    }
}

/// A number cut to what sixty-four bits hold.
pub open spec fn capped(n: nat) -> u64 {
    if n > u64::MAX {
        u64::MAX
    } else {
        n as u64
    }
}

/// Whether `rehearsal` reports `played`: the same result, the same position,
/// and the time cut to machine size.
pub open spec fn shows(rehearsal: Rehearsal, played: Played) -> bool {
    &&& rehearsal.result == played.result
    &&& rehearsal.consumed == played.consumed
    &&& rehearsal.elapsed_ms == capped(played.elapsed)
}

/// Once an operation has failed, playing further operations changes nothing.
pub proof fn nothing_after_failure(
    operations: Seq<OperationView>,
    failed: nat,
    count: nat,
    observations: Seq<Observation>,
    from: nat,
)
    requires
        failed <= count <= operations.len(),
        play_operations(operations, failed, observations, from).result is Err,
    ensures
        play_operations(operations, count, observations, from) == play_operations(
            operations,
            failed,
            observations,
            from,
        ),
    decreases count,
{
    if count > failed {
        nothing_after_failure(operations, failed, (count - 1) as nat, observations, from);
    }
}

/// A set of one action ends as that action does.
pub proof fn single_branch(action: ActionView, observations: Seq<Observation>, from: nat)
    ensures
        play_branches(seq![action], 1, observations, from).results == seq![
            play_action(action, observations, from).result,
        ],
        play_branches(seq![action], 1, observations, from).consumed == play_action(
            action,
            observations,
            from,
        ).consumed,
        play_branches(seq![action], 1, observations, from).elapsed == play_action(
            action,
            observations,
            from,
        ).elapsed,
        first_failure(seq![play_action(action, observations, from).result]) == play_action(
            action,
            observations,
            from,
        ).result,
{
    let actions = seq![action];
    let before = play_branches(actions, 0, observations, from);
    assert(before.results =~= Seq::empty());
    let last = play_action(actions[0], observations, from);
    assert(play_branches(actions, 1, observations, from).results =~= seq![last.result]);
    let results = seq![last.result];
    assert(results[0] == last.result);
    assert(first_failure(results.skip(1)) == Ok::<(), FailureReason>(())) by {
        assert(results.skip(1).len() == 0);
    }
    success_is_one(last.result);
}

/// The observation at `position`.
fn observe(observations: &Vec<Observation>, position: usize) -> (observation: Observation)
    ensures
        observation == observation_at(observations@, position as nat),
{
    if position < observations.len() {
        observations[position]
    } else {
        Observation { sample: u64::MAX, connected: true, answered: true }
    }
}

/// The position behind `position`.
fn step_past(observations: &Vec<Observation>, position: usize) -> (after: usize)
    ensures
        after == position_after(observations@, position as nat),
{
    if position < observations.len() {
        position + 1
    } else {
        position
    }
}

impl Action {
    /// Plays this action through from position `from` of the observations.
    pub fn rehearse(&self, observations: &Vec<Observation>, from: usize) -> (rehearsal: Rehearsal)
        ensures
            shows(rehearsal, play_action(self@, observations@, from as nat)),
        decreases self@, 0nat,
    {
        let observation = observe(observations, from);
        let after = step_past(observations, from);
        match self.enact(Stage::Idle, Event::Begin) {
            Some((stage, Directive::Evaluate(function))) => {
                let inner = function.rehearse(observations, from);
                match self.enact(stage, Event::Finished(inner.result)) {
                    Some((_, Directive::Finish(result))) => Rehearsal {
                        result,
                        consumed: inner.consumed,
                        elapsed_ms: inner.elapsed_ms,
                    },
                    _ => unreached(),
                }
            },
            Some((stage, Directive::Suspend { tracing_name: _, millis })) => {
                match self.enact(stage, Event::Woke) {
                    Some((stage, Directive::Sample)) => {
                        match self.enact(stage, Event::Sampled(observation.sample)) {
                            Some((_, Directive::Finish(result))) => Rehearsal {
                                result,
                                consumed: after,
                                elapsed_ms: millis,
                            },
                            _ => unreached(),
                        }
                    },
                    Some((_, Directive::Finish(result))) => Rehearsal {
                        result,
                        consumed: after,
                        elapsed_ms: millis,
                    },
                    _ => unreached(),
                }
            },
            Some((stage, Directive::Connect { destination: _ })) => {
                let context = TraceContext { trace_id: 0, span_id: 0, sampled: false };
                let connection = if observation.connected {
                    Event::Connected(context)
                } else {
                    Event::Unreachable
                };
                match self.enact(stage, connection) {
                    Some((stage, Directive::Invoke { grpc_method: _, metadata: _ })) => {
                        let answer = if observation.answered {
                            Event::Answered
                        } else {
                            Event::Rejected
                        };
                        match self.enact(stage, answer) {
                            Some((_, Directive::Finish(result))) => Rehearsal {
                                result,
                                consumed: after,
                                elapsed_ms: 0,
                            },
                            _ => unreached(),
                        }
                    },
                    Some((_, Directive::Finish(result))) => Rehearsal {
                        result,
                        consumed: after,
                        elapsed_ms: 0,
                    },
                    _ => unreached(),
                }
            },
            _ => unreached(),
        }
    }
}

/// An operation ends as the join of its actions does, a single action being
/// a set of one.
pub proof fn operation_joins_its_branches(
    operation: OperationView,
    observations: Seq<Observation>,
    from: nat,
)
    ensures
        ({
            let branches = play_branches(
                branches_of(operation),
                branches_of(operation).len(),
                observations,
                from,
            );
            play_operation(operation, observations, from) == (Played {
                result: first_failure(branches.results),
                consumed: branches.consumed,
                elapsed: branches.elapsed,
            })
        }),
{
    match operation {
        OperationView::Action(action) => {
            single_branch(action, observations, from);
        },
        OperationView::ConcurrentActions(_) => {},
    }
}

/// As many results come of a set of actions as actions were played.
pub proof fn every_branch_reports(
    actions: Seq<ActionView>,
    count: nat,
    observations: Seq<Observation>,
    from: nat,
)
    requires
        count <= actions.len(),
    ensures
        play_branches(actions, count, observations, from).results.len() == count,
    decreases count,
{
    if count > 0 {
        every_branch_reports(actions, (count - 1) as nat, observations, from);
    }
}

impl Operation {
    /// Plays this operation through from position `from` of the observations.
    pub fn rehearse(&self, observations: &Vec<Observation>, from: usize) -> (rehearsal: Rehearsal)
        ensures
            shows(rehearsal, play_operation(self@, observations@, from as nat)),
        decreases self@, 0nat,
    {
        proof {
            operation_joins_its_branches(self@, observations@, from as nat);
        }
        let total = self.branches();
        let start = self.enact(Join::new(), None);
        let mut join = start.0;
        assert(join@.len() == total);
        match start.1 {
            Barrier::Finish(result) => {
                assert(play_branches(branches_of(self@), 0, observations@, from as nat).results
                    =~= Seq::<ThespianResult>::empty());
                Rehearsal { result, consumed: from, elapsed_ms: 0 }
            },
            Barrier::Launch(count) => {
                let mut barrier = Barrier::Await;
                let mut cursor: usize = from;
                let mut elapsed: u64 = 0;
                let mut index: usize = 0;
                while index < count
                    invariant
                        count == branches_of(self@).len(),
                        index <= count,
                        join@.len() == count,
                        forall|i: int|
                            0 <= i < index ==> (#[trigger] join@[i]) == Some(
                                play_branches(
                                    branches_of(self@),
                                    index as nat,
                                    observations@,
                                    from as nat,
                                ).results[i],
                            ),
                        forall|i: int| index <= i < count ==> (#[trigger] join@[i]) is None,
                        play_branches(
                            branches_of(self@),
                            index as nat,
                            observations@,
                            from as nat,
                        ).results.len() == index,
                        cursor == play_branches(
                            branches_of(self@),
                            index as nat,
                            observations@,
                            from as nat,
                        ).consumed,
                        elapsed == capped(
                            play_branches(
                                branches_of(self@),
                                index as nat,
                                observations@,
                                from as nat,
                            ).elapsed,
                        ),
                        index > 0 ==> barrier == barrier_of(join@),
                    decreases count - index,
                {
                    let ghost before = play_branches(
                        branches_of(self@),
                        index as nat,
                        observations@,
                        from as nat,
                    );
                    let ghost slots = join@;
                    match self.branch(index) {
                        Some(action) => {
                            let played = action.rehearse(observations, cursor);
                            let next = self.enact(join, Some((index, played.result)));
                            join = next.0;
                            barrier = next.1;
                            cursor = played.consumed;
                            if played.elapsed_ms > elapsed {
                                elapsed = played.elapsed_ms;
                            }
                            index = index + 1;
                            proof {
                                let now = play_branches(
                                    branches_of(self@),
                                    index as nat,
                                    observations@,
                                    from as nat,
                                );
                                assert(now.results == before.results.push(played.result));
                                assert(join@ == slots.update(index - 1, Some(played.result)));
                                assert forall|i: int| 0 <= i < index implies (#[trigger] join@[i])
                                    == Some(now.results[i]) by {
                                    if i < index - 1 {
                                        assert(slots[i] == Some(before.results[i]));
                                    }
                                }
                            }
                        },
                        None => {
                            return unreached();
                        },
                    }
                }
                proof {
                    let branches = play_branches(
                        branches_of(self@),
                        count as nat,
                        observations@,
                        from as nat,
                    );
                    assert(complete(join@)) by {
                        assert forall|i: int| 0 <= i < join@.len() implies (#[trigger] join@[i])
                            is Some by {
                            assert(join@[i] == Some(branches.results[i]));
                        }
                    }
                    assert(gathered(join@) =~= branches.results) by {
                        assert forall|i: int| 0 <= i < join@.len() implies gathered(join@)[i]
                            == branches.results[i] by {
                            assert(join@[i] == Some(branches.results[i]));
                        }
                    }
                }
                match barrier {
                    Barrier::Finish(result) => Rehearsal {
                        result,
                        consumed: cursor,
                        elapsed_ms: elapsed,
                    },
                    _ => unreached(),
                }
            },
            Barrier::Await => unreached(),
        }
    }
}

impl Function {
    /// Plays this function through from position `from` of the observations.
    pub fn rehearse(&self, observations: &Vec<Observation>, from: usize) -> (rehearsal: Rehearsal)
        ensures
            shows(rehearsal, play_function(self@, observations@, from as nat)),
        decreases self@, 0nat,
    {
        let total = self.operations.len();
        let start = self.enact(Sequence::new(), None);
        let mut run = start.0;
        let mut turn = start.1;
        let mut cursor: usize = from;
        let mut elapsed: u64 = 0;
        loop
            invariant
                self@.operations.len() == total,
                turn@ == turn_of(self@, run),
                run.performed <= self@.operations.len(),
                play_operations(
                    self@.operations,
                    run.performed as nat,
                    observations@,
                    from as nat,
                ).result == result_of(run.failure),
                cursor == play_operations(
                    self@.operations,
                    run.performed as nat,
                    observations@,
                    from as nat,
                ).consumed,
                elapsed == capped(
                    play_operations(
                        self@.operations,
                        run.performed as nat,
                        observations@,
                        from as nat,
                    ).elapsed,
                ),
            decreases self@.operations.len() - run.performed,
        {
            match turn {
                Turn::Finish(result) => {
                    proof {
                        if run.failure is Some {
                            nothing_after_failure(
                                self@.operations,
                                run.performed as nat,
                                self@.operations.len(),
                                observations@,
                                from as nat,
                            );
                        }
                    }
                    return Rehearsal { result, consumed: cursor, elapsed_ms: elapsed };
                },
                Turn::Perform(operation) => {
                    let ghost before = play_operations(
                        self@.operations,
                        run.performed as nat,
                        observations@,
                        from as nat,
                    );
                    let ghost last = play_operation(
                        self@.operations[run.performed as int],
                        observations@,
                        before.consumed,
                    );
                    let played = operation.rehearse(observations, cursor);
                    let next = self.enact(run, Some(played.result));
                    proof {
                        assert(operation@ == self@.operations[run.performed as int]);
                        assert(pending(self@, run));
                        assert(play_operations(
                            self@.operations,
                            (run.performed + 1) as nat,
                            observations@,
                            from as nat,
                        ) == (Played {
                            result: last.result,
                            consumed: last.consumed,
                            elapsed: before.elapsed + last.elapsed,
                        }));
                        success_is_one(played.result);
                    }
                    run = next.0;
                    turn = next.1;
                    cursor = played.consumed;
                    elapsed = elapsed.saturating_add(played.elapsed_ms);
                },
            }
        }
    }
}

impl OptionalFunction {
    /// Plays a request to this entry point through from the first observation
    /// on, and gives the reply together with how the rehearsal ended.
    pub fn rehearse(&self, observations: &Vec<Observation>) -> (outcome: (Reply, Rehearsal))
        ensures
            shows(outcome.1, play_entry(self@, observations@, 0)),
            outcome.0@ == reply_of(outcome.1.result),
    {
        match self.enact(None) {
            Entry::Evaluate(function) => {
                let played = function.rehearse(observations, 0);
                match self.enact(Some(played.result)) {
                    Entry::Respond(answer) => (answer, played),
                    Entry::Evaluate(_) => unreached(),
                }
            },
            Entry::Respond(answer) => (answer, Rehearsal { result: Ok(()), consumed: 0, elapsed_ms: 0 }),
        }
    }
}

} // verus!
