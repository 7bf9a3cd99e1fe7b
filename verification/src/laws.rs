//! What holds of every workflow, every evaluation and every configuration
//! text.

use crate::entry::{entry_step, EntryView, ReplyView};
use crate::failure::{success_is_one, FailureReason, ThespianResult};
use crate::function::{
    advanced, function_step, pending, result_of, turn_of, Sequence, TurnView,
};
use crate::hex::{hex, hex_has_width, hex_tells_values_apart, sixteen_to};
use crate::join::{complete, first_failure, gathered, joined, recorded, unreported};
use crate::operation::{barrier_of, operation_step, Barrier};
use crate::rehearsal::{
    every_branch_reports, play_action, play_branches, play_entry, Observation, Played,
};
use crate::thespian_instance::{decoded, decoding_view, DecodeError, ThespianInstance};
use crate::trace_context::{
    carried, carrier_key, context_of, read_out, traceparent_text, TraceContext,
};
use crate::workflow::{ActionView, FunctionView, OperationView};
use vstd::prelude::*;

verus! {

/// Sequencing. When the pending operation of a function fails, the function
/// ends in that failure at once, and whatever is reported to it afterwards it
/// stays there: no later operation is ever handed out.
pub proof fn failure_ends_the_function(
    function: FunctionView,
    run: Sequence,
    reason: FailureReason,
    later: Option<ThespianResult>,
)
    requires
        pending(function, run),
    ensures
        function_step(function, run, Some(Err(reason))).1 == TurnView::Finish(Err(reason)),
        function_step(function, advanced(function, run, Some(Err(reason))), later) == (
            advanced(function, run, Some(Err(reason))),
            TurnView::Finish(Err(reason)),
        ),
{
}

/// Sequencing. While nothing has failed, the operations of a function are
/// handed out one at a time, in the order in which they were declared, and
/// the function succeeds behind the last.
pub proof fn operations_run_in_order(function: FunctionView, performed: usize)
    requires
        performed <= function.operations.len(),
    ensures
        performed < function.operations.len() ==> turn_of(
            function,
            Sequence { performed, failure: None },
        ) == TurnView::Perform(function.operations[performed as int]),
        performed == function.operations.len() ==> turn_of(
            function,
            Sequence { performed, failure: None },
        ) == TurnView::Finish(Ok(())),
{
}

/// Where the evaluation of a function stands once the first `count` of
/// `results` have been reported to it, one after another.
pub open spec fn run_after(
    function: FunctionView,
    results: Seq<ThespianResult>,
    count: nat,
) -> Sequence
    decreases count,
{
    if count == 0 || count > results.len() {
        Sequence { performed: 0, failure: None }
    } else {
        advanced(
            function,
            run_after(function, results, (count - 1) as nat),
            Some(results[count - 1]),
        )
    }
}

/// The first failure of a list with one result more is the first failure of
/// the list, or else that one result.
pub proof fn first_failure_with_one_more(results: Seq<ThespianResult>, last: ThespianResult)
    ensures
        first_failure(results.push(last)) == (if first_failure(results) is Err {
            first_failure(results)
        } else {
            last
        }),
    decreases results.len(),
{
    let more = results.push(last);
    if results.len() == 0 {
        assert(more[0] == last);
        assert(more.skip(1).len() == 0);
        success_is_one(last);
    } else {
        assert(more[0] == results[0]);
        assert(more.skip(1) =~= results.skip(1).push(last));
        first_failure_with_one_more(results.skip(1), last);
    }
}

/// Sequencing. Let the operations of a function end in `results`, were each
/// of them evaluated. Reported one after another, they bring the function to
/// the first failure among them and no further: it has performed the
/// operations up to the one that failed, and ends in that failure; where none
/// fails it has performed them all, and succeeds.
pub proof fn a_function_ends_in_its_first_failure(
    function: FunctionView,
    results: Seq<ThespianResult>,
    count: nat,
)
    requires
        results.len() == function.operations.len(),
        function.operations.len() <= usize::MAX,
        count <= results.len(),
    ensures
        ({
            let run = run_after(function, results, count);
            &&& run.performed <= count
            &&& run.failure is None ==> run.performed == count
            &&& forall|i: int| 0 <= i < run.performed - 1 ==> (#[trigger] results[i]) is Ok
            &&& run.failure matches Some(reason) ==> results[run.performed - 1] == Err::<
                (),
                FailureReason,
            >(reason)
            &&& result_of(run.failure) == first_failure(results.take(count as int))
            &&& count == results.len() ==> turn_of(function, run) == TurnView::Finish(
                first_failure(results),
            )
        }),
    decreases count,
{
    if count == 0 {
        assert(results.take(0).len() == 0);
        if results.len() == 0 {
            assert(results.take(0) =~= results);
        }
    } else {
        let before = (count - 1) as nat;
        a_function_ends_in_its_first_failure(function, results, before);
        assert(results.take(count as int) =~= results.take(before as int).push(
            results[before as int],
        ));
        first_failure_with_one_more(results.take(before as int), results[before as int]);
        success_is_one(results[before as int]);
        if count == results.len() {
            assert(results.take(count as int) =~= results);
        }
    }
}

/// Concurrent completion. While one branch is outstanding a join gives no
/// verdict, whatever the other branches have reported, failures included.
pub proof fn join_waits_for_every_branch(slots: Seq<Option<ThespianResult>>, outstanding: int)
    requires
        0 <= outstanding < slots.len(),
        slots[outstanding] is None,
    ensures
        joined(slots) is None,
        barrier_of(slots) == Barrier::Await,
{
}

/// Concurrent completion. Of a set of actions played side by side every one
/// is played to its end, and the set takes exactly as long as the longest of
/// them.
pub proof fn branches_take_as_long_as_the_longest(
    actions: Seq<ActionView>,
    count: nat,
    observations: Seq<Observation>,
    from: nat,
)
    requires
        count <= actions.len(),
    ensures
        play_branches(actions, count, observations, from).results.len() == count,
        forall|i: nat|
            i < count ==> (#[trigger] play_action(
                actions[i as int],
                observations,
                play_branches(actions, i, observations, from).consumed,
            )).elapsed <= play_branches(actions, count, observations, from).elapsed,
        count > 0 ==> exists|i: nat|
            i < count && (#[trigger] play_action(
                actions[i as int],
                observations,
                play_branches(actions, i, observations, from).consumed,
            )).elapsed == play_branches(actions, count, observations, from).elapsed,
    decreases count,
{
    every_branch_reports(actions, count, observations, from);
    if count > 0 {
        let before = (count - 1) as nat;
        branches_take_as_long_as_the_longest(actions, before, observations, from);
        let last = play_action(
            actions[before as int],
            observations,
            play_branches(actions, before, observations, from).consumed,
        );
        let whole = play_branches(actions, count, observations, from);
        if whole.elapsed == last.elapsed {
            assert(before < count && last.elapsed == whole.elapsed);
        } else {
            assert(before > 0);
            let longest = choose|i: nat|
                i < before && (#[trigger] play_action(
                    actions[i as int],
                    observations,
                    play_branches(actions, i, observations, from).consumed,
                )).elapsed == play_branches(actions, before, observations, from).elapsed;
            assert(longest < count);
        }
    }
}

/// First failure wins. The verdict over the results of the branches is the
/// failure of the first branch, in the order of declaration, that failed.
pub proof fn first_failure_is_the_earliest(results: Seq<ThespianResult>, earliest: int)
    requires
        0 <= earliest < results.len(),
        results[earliest] is Err,
        forall|i: int| 0 <= i < earliest ==> (#[trigger] results[i]) is Ok,
    ensures
        first_failure(results) == results[earliest],
    decreases results.len(),
{
    if earliest > 0 {
        assert(results[0] is Ok);
        let rest = results.skip(1);
        assert forall|i: int| 0 <= i < earliest - 1 implies (#[trigger] rest[i]) is Ok by {
            assert(results[i + 1] is Ok);
        }
        first_failure_is_the_earliest(rest, earliest - 1);
    }
}

/// First failure wins. Where no branch failed the verdict is success.
pub proof fn no_failure_is_success(results: Seq<ThespianResult>)
    requires
        forall|i: int| 0 <= i < results.len() ==> (#[trigger] results[i]) is Ok,
    ensures
        first_failure(results) == Ok::<(), FailureReason>(()),
    decreases results.len(),
{
    if results.len() > 0 {
        assert(results[0] is Ok);
        let rest = results.skip(1);
        assert forall|i: int| 0 <= i < rest.len() implies (#[trigger] rest[i]) is Ok by {
            assert(results[i + 1] is Ok);
        }
        no_failure_is_success(rest);
    }
}

/// First failure wins. The order in which two branches report makes no
/// difference to what a join holds, and so none to its verdict.
pub proof fn reports_commute(
    slots: Seq<Option<ThespianResult>>,
    one: int,
    result_of_one: ThespianResult,
    other: int,
    result_of_other: ThespianResult,
)
    requires
        one != other,
    ensures
        recorded(recorded(slots, one, result_of_one), other, result_of_other) == recorded(
            recorded(slots, other, result_of_other),
            one,
            result_of_one,
        ),
        joined(recorded(recorded(slots, one, result_of_one), other, result_of_other)) == joined(
            recorded(recorded(slots, other, result_of_other), one, result_of_one),
        ),
{
    assert(recorded(recorded(slots, one, result_of_one), other, result_of_other) =~= recorded(
        recorded(slots, other, result_of_other),
        one,
        result_of_one,
    ));
}

/// What a join holds once the first `count` branches of `order` have
/// reported, each the result that `results` holds for it.
pub open spec fn reported(results: Seq<ThespianResult>, order: Seq<int>, count: nat) -> Seq<
    Option<ThespianResult>,
>
    decreases count,
{
    if count == 0 || count > order.len() {
        unreported(results.len())
    } else {
        recorded(
            reported(results, order, (count - 1) as nat),
            order[count - 1],
            results[order[count - 1]],
        )
    }
}

/// Whether `branch` is among the first `count` branches of `order`.
pub open spec fn named(order: Seq<int>, count: int, branch: int) -> bool {
    exists|k: int| 0 <= k < count && k < order.len() && #[trigger] order[k] == branch
}

/// Whether `order` names every one of `branches` branches exactly once.
pub open spec fn names_every_branch_once(order: Seq<int>, branches: nat) -> bool {
    &&& order.len() == branches
    &&& forall|k: int| 0 <= k < order.len() ==> 0 <= #[trigger] order[k] < branches
    &&& forall|j: int, k: int| 0 <= j < k < order.len() ==> order[j] != order[k]
    &&& forall|i: int| 0 <= i < branches ==> #[trigger] named(order, order.len() as int, i)
}

/// After `count` reports in `order` a slot holds the result of its branch if
/// the branch is among those that reported, and nothing otherwise.
proof fn reported_slots(results: Seq<ThespianResult>, order: Seq<int>, count: nat)
    requires
        names_every_branch_once(order, results.len()),
        count <= results.len(),
    ensures
        reported(results, order, count).len() == results.len(),
        forall|i: int|
            0 <= i < results.len() ==> (#[trigger] reported(results, order, count)[i]) == (if named(
                order,
                count as int,
                i,
            ) {
                Some(results[i])
            } else {
                None
            }),
    decreases count,
{
    if count > 0 {
        let before = (count - 1) as nat;
        reported_slots(results, order, before);
        let earlier = reported(results, order, before);
        let branch = order[before as int];
        assert(0 <= branch < results.len());
        assert(earlier[branch] is None) by {
            if named(order, before as int, branch) {
                let k = choose|k: int|
                    0 <= k < before && k < order.len() && #[trigger] order[k] == branch;
                assert(order[k] != order[before as int]);
            }
        }
        assert forall|i: int| 0 <= i < results.len() implies (#[trigger] reported(
            results,
            order,
            count,
        )[i]) == (if named(order, count as int, i) {
            Some(results[i])
        } else {
            None
        }) by {
            if i == branch {
                assert(0 <= before < count && order[before as int] == i);
            } else {
                if named(order, count as int, i) {
                    let k = choose|k: int|
                        0 <= k < count && k < order.len() && #[trigger] order[k] == i;
                    assert(k < before);
                    assert(named(order, before as int, i));
                } else {
                    if named(order, before as int, i) {
                        let k = choose|k: int|
                            0 <= k < before && k < order.len() && #[trigger] order[k] == i;
                        assert(0 <= k < count && order[k] == i);
                    }
                }
            }
        }
    }
}

/// Concurrent completion and first failure wins, for every order of
/// completion. Let the branches of a concurrent operation end in `results`
/// and report in any `order`. Then no verdict is given before the last report,
/// failures among the earlier ones notwithstanding, and the verdict given with
/// the last is the first failure in the order of declaration, or success: it
/// does not depend on the order of completion.
pub proof fn the_verdict_waits_for_all_and_heeds_no_order(
    results: Seq<ThespianResult>,
    order: Seq<int>,
    count: nat,
)
    requires
        names_every_branch_once(order, results.len()),
        count <= results.len(),
    ensures
        count < results.len() ==> joined(reported(results, order, count)) is None,
        count == results.len() ==> joined(reported(results, order, count)) == Some(
            first_failure(results),
        ),
{
    reported_slots(results, order, count);
    let slots = reported(results, order, count);
    if count < results.len() {
        let outstanding = order[count as int];
        assert(0 <= outstanding < results.len());
        assert(slots[outstanding] is None) by {
            if named(order, count as int, outstanding) {
                let k = choose|k: int|
                    0 <= k < count && k < order.len() && #[trigger] order[k] == outstanding;
                assert(order[k] != order[count as int]);
            }
        }
    } else {
        assert forall|i: int| 0 <= i < slots.len() implies (#[trigger] slots[i]) == Some(
            results[i],
        ) by {
            assert(named(order, order.len() as int, i));
        }
        assert(complete(slots));
        assert(gathered(slots) =~= results);
    }
}

/// A single action is passed through. The operation that holds one action
/// ends, with the report of that action, in the very result reported.
pub proof fn a_single_action_passes_its_result_on(action: ActionView, result: ThespianResult)
    ensures
        operation_step(OperationView::Action(action), unreported(1), Some((0, result))).1
            == Barrier::Finish(result),
{
    let slots = recorded(unreported(1), 0, result);
    assert(slots[0] == Some(result));
    assert(complete(slots));
    let results = gathered(slots);
    assert(results[0] == result);
    assert(first_failure(results.skip(1)) == Ok::<(), FailureReason>(())) by {
        assert(results.skip(1).len() == 0);
    }
    success_is_one(result);
}

/// No-op entry. An entry point bound to no function answers with success at
/// once: nothing is handed out for evaluation, no observation is read and no
/// time passes.
pub proof fn unbound_entry_is_a_no_op(
    event: Option<ThespianResult>,
    observations: Seq<Observation>,
    from: nat,
)
    ensures
        entry_step(None, event) == EntryView::Respond(ReplyView::Success),
        play_entry(None, observations, from) == (Played {
            result: Ok(()),
            consumed: from,
            elapsed: 0,
        }),
{
}

/// Trace continuity. The metadata that goes out with a call made under a
/// valid context holds one entry, and its value holds, behind the version and
/// its hyphen, the trace identifier of the caller in the very digits in which
/// `get_trace_id` shows it.
pub proof fn metadata_carries_the_trace_id(context: TraceContext)
    requires
        context.valid(),
    ensures
        carried(context).len() == 1,
        carried(context)[0].0 == carrier_key(),
        carried(context)[0].1.subrange(3, 35) == hex(context.trace_id as nat, 32),
{
    hex_has_width(context.trace_id as nat, 32);
    hex_has_width(context.span_id as nat, 16);
    assert(carried(context)[0].1.subrange(3, 35) =~= hex(context.trace_id as nat, 32));
}

/// Trace continuity. Both sides use one wire format: what the inbound side
/// reads out of the metadata that the outbound side wrote is what the
/// propagator reads out of the wire text of the caller's context.
pub proof fn one_wire_format_both_ways(context: TraceContext)
    ensures
        read_out(carried(context)) == (if context.valid() {
            context_of(traceparent_text(context.trace_id, context.span_id, context.sampled))
        } else {
            None
        }),
{
}

/// Trace continuity. Two contexts whose trace identifiers read alike, in the
/// form in which `get_trace_id` shows them, belong to one trace.
pub proof fn one_text_one_trace(one: TraceContext, other: TraceContext)
    requires
        hex(one.trace_id as nat, 32) == hex(other.trace_id as nat, 32),
    ensures
        one.trace_id == other.trace_id,
{
    assert(sixteen_to(32) == 0x1_0000_0000_0000_0000_0000_0000_0000_0000) by {
        reveal_with_fuel(sixteen_to, 33);
    }
    hex_tells_values_apart(one.trace_id as nat, other.trace_id as nat, 32);
}

/// Decoding is repeatable. Two decodings of one configuration text give
/// the same: the same definition, or the same error.
pub proof fn decoding_is_repeatable(
    config_json: Seq<char>,
    first: Result<ThespianInstance, DecodeError>,
    second: Result<ThespianInstance, DecodeError>,
)
    requires
        decoding_view(first) == decoded(config_json),
        decoding_view(second) == decoded(config_json),
    ensures
        decoding_view(first) == decoding_view(second),
{
}

} // verus!
