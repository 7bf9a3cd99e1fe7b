//! Action evaluation: nest a function, call a service, or sleep.

use crate::outbound::{call_step, issue_grpc_request};
use crate::protocol::{step_view, Directive, DirectiveView, Event, Stage};
use crate::sleep::{sleep, sleep_step};
use crate::workflow::{Action, ActionView};
use vstd::prelude::*;

verus! {

/// One step of an action. A nested function is handed out for evaluation and
/// its result becomes the action's own; a call and a sleep go by their own
/// steps.
pub open spec fn action_step(action: ActionView, stage: Stage, event: Event) -> Option<
    (Stage, DirectiveView),
> {
    match action {
        ActionView::Function(function) => match (stage, event) {
            (Stage::Idle, Event::Begin) => Some((Stage::Nested, DirectiveView::Evaluate(function))),
            (Stage::Nested, Event::Finished(result)) => Some(
                (Stage::Done, DirectiveView::Finish(result)),
            ),
            _ => None,
        },
        ActionView::CallService { service_address, service_port, grpc_method } => call_step(
            service_address,
            service_port,
            grpc_method,
            stage,
            event,
        ),
        ActionView::Sleep { tracing_name, duration_ms, failure_chance } => sleep_step(
            tracing_name,
            duration_ms,
            failure_chance,
            stage,
            event,
        ),
    }
}

impl Action {
    /// Takes this action one step further: from the stage it has reached and
    /// the event that the driver reports to the next stage and directive.
    /// An event that does not fit the stage gives nothing.
    pub fn enact<'a>(&'a self, stage: Stage, event: Event) -> (step: Option<
        (Stage, Directive<'a>),
    >)
        ensures
            step_view(step) == action_step(self@, stage, event),
    {
        match self {
            Action::Function(function) => match stage {
                Stage::Idle => match event {
                    Event::Begin => Some((Stage::Nested, Directive::Evaluate(function))),
                    _ => None,
                },
                Stage::Nested => match event {
                    Event::Finished(result) => Some((Stage::Done, Directive::Finish(result))),
                    _ => None,
                },
                _ => None,
            },
            Action::CallService { service_address, service_port, grpc_method } => {
                issue_grpc_request(
                    service_address.as_str(),
                    service_port.as_str(),
                    grpc_method,
                    stage,
                    event,
                )
            },
            Action::Sleep { tracing_name, duration_ms, failure_chance } => sleep(
                tracing_name.as_str(),
                *duration_ms,
                *failure_chance,
                stage,
                event,
            ),
        }
    }
}

} // verus!
