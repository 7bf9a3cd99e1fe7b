use thespian::entry::{reply, Entry, Reply};
use thespian::failure::{FailureReason, ThespianResult};
use thespian::function::{Sequence, Turn};
use thespian::join::Join;
use thespian::operation::Barrier;
use thespian::workflow::{Action, Function, GrpcMethod, Operation, OptionalFunction};

const SIMULATED: ThespianResult = Err(FailureReason::SimulatedFailure);
const DOWNSTREAM: ThespianResult = Err(FailureReason::DownstreamCallFailure);

fn nap(name: &str, duration_ms: u64) -> Action {
    Action::Sleep { tracing_name: name.to_string(), duration_ms, failure_chance: None }
}

fn call(port: &str) -> Action {
    Action::CallService {
        service_address: "http://next".to_string(),
        service_port: port.to_string(),
        grpc_method: GrpcMethod::A,
    }
}

fn three_operations() -> Function {
    Function {
        tracing_name: "three".to_string(),
        operations: vec![
            Operation::Action(nap("op1", 1)),
            Operation::Action(nap("op2", 2)),
            Operation::Action(nap("op3", 3)),
        ],
    }
}

fn perform<'a>(turn: Turn<'a>) -> &'a Operation {
    match turn {
        Turn::Perform(operation) => operation,
        Turn::Finish(result) => panic!("finished with {:?}", result),
    }
}

fn finish(turn: Turn) -> ThespianResult {
    match turn {
        Turn::Finish(result) => result,
        Turn::Perform(operation) => panic!("handed out {:?}", operation),
    }
}

#[test]
fn operations_are_handed_out_in_order() {
    let function = three_operations();
    let (run, turn) = function.enact(Sequence::new(), None);
    assert_eq!(run, Sequence { performed: 0, failure: None });
    assert_eq!(perform(turn), &function.operations[0]);
    let (run, turn) = function.enact(run, Some(Ok(())));
    assert_eq!(run, Sequence { performed: 1, failure: None });
    assert_eq!(perform(turn), &function.operations[1]);
    let (run, turn) = function.enact(run, Some(Ok(())));
    assert_eq!(perform(turn), &function.operations[2]);
    let (run, turn) = function.enact(run, Some(Ok(())));
    assert_eq!(run, Sequence { performed: 3, failure: None });
    assert_eq!(finish(turn), Ok(()));
}

#[test]
fn a_failed_operation_ends_the_function_and_the_next_is_never_handed_out() {
    let function = three_operations();
    let (run, _) = function.enact(Sequence::new(), None);
    let (run, turn) = function.enact(run, Some(Ok(())));
    assert_eq!(perform(turn), &function.operations[1]);
    let (run, turn) = function.enact(run, Some(SIMULATED));
    assert_eq!(run, Sequence { performed: 2, failure: Some(FailureReason::SimulatedFailure) });
    assert_eq!(finish(turn), SIMULATED);
    for later in [None, Some(Ok(())), Some(DOWNSTREAM)] {
        let (after, turn) = function.enact(run, later);
        assert_eq!(after, run);
        assert_eq!(finish(turn), SIMULATED);
    }
}

#[test]
fn asking_again_without_a_report_repeats_the_turn() {
    let function = three_operations();
    let (run, _) = function.enact(Sequence::new(), None);
    let (run, _) = function.enact(run, Some(Ok(())));
    let (again, turn) = function.enact(run, None);
    assert_eq!(again, run);
    assert_eq!(perform(turn), &function.operations[1]);
}

#[test]
fn a_function_without_operations_succeeds_at_once() {
    let function = Function { tracing_name: "empty".to_string(), operations: vec![] };
    let (run, turn) = function.enact(Sequence::new(), None);
    assert_eq!(finish(turn), Ok(()));
    let (after, turn) = function.enact(run, Some(SIMULATED));
    assert_eq!(after, run);
    assert_eq!(finish(turn), Ok(()));
}

#[test]
fn a_join_gives_no_verdict_while_a_branch_is_outstanding() {
    let mut join = Join::of(3);
    assert_eq!(join.branches(), 3);
    assert_eq!(join.outcome(), None);
    assert!(join.record(0, SIMULATED));
    assert_eq!(join.outcome(), None);
    assert!(join.record(2, Ok(())));
    assert_eq!(join.outcome(), None);
    assert!(join.record(1, Ok(())));
    assert_eq!(join.outcome(), Some(SIMULATED));
}

#[test]
fn a_join_reports_the_first_failure_in_declared_order() {
    let mut join = Join::of(4);
    join.record(0, Ok(()));
    join.record(1, SIMULATED);
    join.record(2, DOWNSTREAM);
    join.record(3, Ok(()));
    assert_eq!(join.outcome(), Some(SIMULATED));

    let mut join = Join::of(2);
    join.record(0, DOWNSTREAM);
    join.record(1, SIMULATED);
    assert_eq!(join.outcome(), Some(DOWNSTREAM));
}

#[test]
fn the_order_of_reports_does_not_change_the_verdict() {
    let results = [Ok(()), SIMULATED, DOWNSTREAM, Ok(())];
    let orders: [[usize; 4]; 6] =
        [[0, 1, 2, 3], [3, 2, 1, 0], [2, 1, 0, 3], [1, 2, 3, 0], [2, 3, 0, 1], [3, 0, 2, 1]];
    for order in orders {
        let mut join = Join::of(4);
        for branch in order {
            assert!(join.record(branch, results[branch]));
        }
        assert_eq!(join.outcome(), Some(SIMULATED), "{:?}", order);
    }
}

#[test]
fn a_join_of_successes_succeeds() {
    let mut join = Join::of(2);
    join.record(1, Ok(()));
    join.record(0, Ok(()));
    assert_eq!(join.outcome(), Some(Ok(())));
}

#[test]
fn a_join_without_branches_succeeds() {
    assert_eq!(Join::new().outcome(), Some(Ok(())));
    assert_eq!(Join::of(0).outcome(), Some(Ok(())));
    assert_eq!(Join::new().branches(), 0);
}

#[test]
fn a_join_takes_one_report_for_each_branch() {
    let mut join = Join::of(2);
    assert!(!join.record(2, SIMULATED));
    assert!(!join.record(usize::MAX, SIMULATED));
    assert!(join.record(0, Ok(())));
    assert!(!join.record(0, SIMULATED));
    assert!(join.record(1, Ok(())));
    assert_eq!(join.outcome(), Some(Ok(())));
}

#[test]
fn a_single_action_is_a_set_of_one() {
    let operation = Operation::Action(nap("only", 10));
    assert_eq!(operation.branches(), 1);
    assert_eq!(operation.branch(0), Some(&nap("only", 10)));
    assert_eq!(operation.branch(1), None);
    let (join, barrier) = operation.enact(Join::new(), None);
    assert_eq!(barrier, Barrier::Launch(1));
    let (_, barrier) = operation.enact(join, Some((0, DOWNSTREAM)));
    assert_eq!(barrier, Barrier::Finish(DOWNSTREAM));
}

#[test]
fn a_concurrent_operation_launches_all_and_waits_for_all() {
    let operation = Operation::ConcurrentActions(vec![nap("a", 1), call("1"), nap("b", 3)]);
    assert_eq!(operation.branches(), 3);
    assert_eq!(operation.branch(1), Some(&call("1")));
    assert_eq!(operation.branch(3), None);
    let (join, barrier) = operation.enact(Join::new(), None);
    assert_eq!(barrier, Barrier::Launch(3));
    assert_eq!(join.branches(), 3);
    let (join, barrier) = operation.enact(join, Some((1, DOWNSTREAM)));
    assert_eq!(barrier, Barrier::Await);
    let (join, barrier) = operation.enact(join, Some((2, Ok(()))));
    assert_eq!(barrier, Barrier::Await);
    let (join, barrier) = operation.enact(join, Some((7, Ok(()))));
    assert_eq!(barrier, Barrier::Await);
    let (_, barrier) = operation.enact(join, Some((0, SIMULATED)));
    assert_eq!(barrier, Barrier::Finish(SIMULATED));
}

#[test]
fn a_concurrent_operation_without_actions_succeeds_at_once() {
    let operation = Operation::ConcurrentActions(vec![]);
    assert_eq!(operation.branches(), 0);
    assert_eq!(operation.branch(0), None);
    let (_, barrier) = operation.enact(Join::new(), None);
    assert_eq!(barrier, Barrier::Finish(Ok(())));
}

#[test]
fn an_entry_point_bound_to_nothing_answers_with_success_at_once() {
    let unbound = OptionalFunction(None);
    assert!(matches!(unbound.enact(None), Entry::Respond(Reply::Success)));
    assert!(matches!(unbound.enact(Some(SIMULATED)), Entry::Respond(Reply::Success)));
}

#[test]
fn a_bound_entry_point_has_its_function_evaluated_first() {
    let bound = OptionalFunction(Some(three_operations()));
    match bound.enact(None) {
        Entry::Evaluate(function) => assert_eq!(function, &three_operations()),
        other => panic!("{:?}", other),
    }
    assert!(matches!(bound.enact(Some(Ok(()))), Entry::Respond(Reply::Success)));
    match bound.enact(Some(DOWNSTREAM)) {
        Entry::Respond(answer) => {
            assert_eq!(answer, Reply::Internal("(ノಠ益ಠ)ノ彡┻━┻".to_string()))
        }
        other => panic!("{:?}", other),
    }
}

#[test]
fn a_failure_becomes_an_internal_error_with_an_opaque_message() {
    assert_eq!(reply(Ok(())), Reply::Success);
    assert_eq!(reply(SIMULATED), Reply::Internal("¯\\_(ツ)_/¯".to_string()));
    assert_eq!(reply(DOWNSTREAM), Reply::Internal("(ノಠ益ಠ)ノ彡┻━┻".to_string()));
}
