//! Outbound invocation: one call to a downstream instance.

use crate::failure::FailureReason;
use crate::protocol::{step_view, Directive, DirectiveView, Event, Stage};
use crate::trace_context::carried;
use crate::workflow::GrpcMethod;
use vstd::prelude::*;
use vstd::string::StringExecFns;

verus! {

/// Where a call goes: the address, a colon, the port.
pub open spec fn destination_text(service_address: Seq<char>, service_port: Seq<char>) -> Seq<
    char,
> {
    service_address + seq![':'] + service_port
}

/// One step of an outbound call. It starts by connecting to the destination.
/// Once connected it sends the request to the chosen entry point, with the
/// caller's trace context in its metadata. A connection that cannot be
/// opened and an answer that is not a success both end the call in a
/// downstream call failure; a successful answer ends it in success.
pub open spec fn call_step(
    service_address: Seq<char>,
    service_port: Seq<char>,
    grpc_method: GrpcMethod,
    stage: Stage,
    event: Event,
) -> Option<(Stage, DirectiveView)> {
    match (stage, event) {
        (Stage::Idle, Event::Begin) => Some(
            (
                Stage::Connecting,
                DirectiveView::Connect {
                    destination: destination_text(service_address, service_port),
                },
            ),
        ),
        (Stage::Connecting, Event::Connected(context)) => Some(
            (
                Stage::Invoking,
                DirectiveView::Invoke { grpc_method, metadata: carried(context) },
            ),
        ),
        (Stage::Connecting, Event::Unreachable) => Some(
            (Stage::Done, DirectiveView::Finish(Err(FailureReason::DownstreamCallFailure))),
        ),
        (Stage::Invoking, Event::Answered) => Some((Stage::Done, DirectiveView::Finish(Ok(())))),
        (Stage::Invoking, Event::Rejected) => Some(
            (Stage::Done, DirectiveView::Finish(Err(FailureReason::DownstreamCallFailure))),
        ),
        _ => None,
    }
}

/// The destination of a call to `service_address` at `service_port`.
pub fn service_destination(service_address: &str, service_port: &str) -> (destination: String)
    ensures
        destination@ == destination_text(service_address@, service_port@),
{
    proof {
        reveal_strlit(":");
    }
    let mut destination = String::from_str(service_address);
    destination.append(":");
    destination.append(service_port);
    assert(destination@ =~= destination_text(service_address@, service_port@));
    destination
}

/// Takes an outbound call one step further.
pub fn issue_grpc_request<'a>(
    service_address: &str,
    service_port: &str,
    grpc_method: &GrpcMethod,
    stage: Stage,
    event: Event,
) -> (step: Option<(Stage, Directive<'a>)>)
    ensures
        step_view(step) == call_step(
            service_address@,
            service_port@,
            *grpc_method,
            stage,
            event,
        ),
{
    match stage {
        Stage::Idle => match event {
            Event::Begin => Some(
                (
                    Stage::Connecting,
                    Directive::Connect {
                        destination: service_destination(service_address, service_port),
                    },
                ),
            ),
            _ => None,
        },
        Stage::Connecting => match event {
            Event::Connected(context) => Some(
                (
                    Stage::Invoking,
                    Directive::Invoke {
                        grpc_method: *grpc_method,
                        metadata: context.inject(),
                    },
                ),
            ),
            Event::Unreachable => Some(
                (Stage::Done, Directive::Finish(Err(FailureReason::DownstreamCallFailure))),
            ),
            _ => None,
        },
        Stage::Invoking => match event {
            Event::Answered => Some((Stage::Done, Directive::Finish(Ok(())))),
            Event::Rejected => Some(
                (Stage::Done, Directive::Finish(Err(FailureReason::DownstreamCallFailure))),
            ),
            _ => None,
        },
        _ => None,
    }
}

} // verus!
