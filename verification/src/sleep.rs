//! The sleep step: suspend, then fail by chance.

use crate::chance::{roll, rolled};
use crate::protocol::{step_view, Directive, DirectiveView, Event, Stage};
use vstd::prelude::*;

verus! {

/// One step of a sleep. It starts by suspending for `duration_ms`. Once awake
/// it asks for a sample if there is a failure chance, and ends in success if
/// there is none. The sample decides: a simulated failure where the sample is
/// below the chance, success otherwise.
pub open spec fn sleep_step(
    tracing_name: Seq<char>,
    duration_ms: u64,
    failure_chance: Option<u64>,
    stage: Stage,
    event: Event,
) -> Option<(Stage, DirectiveView)> {
    match (stage, event) {
        (Stage::Idle, Event::Begin) => Some(
            (Stage::Sleeping, DirectiveView::Suspend { tracing_name, millis: duration_ms }),
        ),
        (Stage::Sleeping, Event::Woke) => if failure_chance is Some {
            Some((Stage::Sampling, DirectiveView::Sample))
        } else {
            Some((Stage::Done, DirectiveView::Finish(Ok(()))))
        },
        (Stage::Sampling, Event::Sampled(sample)) => Some(
            (Stage::Done, DirectiveView::Finish(rolled(failure_chance, sample))),
        ),
        _ => None,
    }
}

/// Takes a sleep one step further.
pub fn sleep<'a>(
    tracing_name: &'a str,
    duration_ms: u64,
    failure_chance: Option<u64>,
    stage: Stage,
    event: Event,
) -> (step: Option<(Stage, Directive<'a>)>)
    ensures
        step_view(step) == sleep_step(tracing_name@, duration_ms, failure_chance, stage, event),
{
    match stage {
        Stage::Idle => match event {
            Event::Begin => Some(
                (Stage::Sleeping, Directive::Suspend { tracing_name, millis: duration_ms }),
            ),
            _ => None,
        },
        Stage::Sleeping => match event {
            Event::Woke => {
                if failure_chance.is_some() {
                    Some((Stage::Sampling, Directive::Sample))
                } else {
                    Some((Stage::Done, Directive::Finish(Ok(()))))
                }
            },
            _ => None,
        },
        Stage::Sampling => match event {
            Event::Sampled(sample) => Some(
                (Stage::Done, Directive::Finish(roll(failure_chance, sample))),
            ),
            _ => None,
        },
        _ => None,
    }
}

} // verus!
