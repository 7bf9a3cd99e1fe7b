//! What passes between the library and the driver of one action.
//!
//! The library never waits, sends or draws. It directs: a [`Directive`] says
//! what the driver must do next, and the driver answers with the [`Event`] that
//! came of it. A [`Stage`] records how far the action has come.

use crate::failure::ThespianResult;
use crate::trace_context::{entry_views, TraceContext};
use crate::workflow::{Function, FunctionView, GrpcMethod};
use vstd::prelude::*;

verus! {

/// How far one action has come.
#[derive(Clone, Copy, Debug, PartialEq, Eq, Structural)]
pub enum Stage {
    /// Nothing was directed yet.
    Idle,
    /// A nested function is being evaluated.
    Nested,
    /// The sleep is under way.
    Sleeping,
    /// The sleep is over and a sample is awaited.
    Sampling,
    /// A connection to the downstream instance is being opened.
    Connecting,
    /// The call was sent and its answer is awaited.
    Invoking,
    /// The action has ended.
    Done,
}

/// What the driver reports back.
#[derive(Clone, Copy, Debug, PartialEq, Eq)]
pub enum Event {
    /// The action is to start.
    Begin,
    /// The nested function ended in this result.
    Finished(ThespianResult),
    /// The sleep is over.
    Woke,
    /// A uniform sample of the unit interval was drawn; these are its bits.
    Sampled(u64),
    /// The connection is open; this is the caller's current trace context.
    Connected(TraceContext),
    /// The connection could not be opened.
    Unreachable,
    /// The downstream instance answered with success.
    Answered,
    /// The downstream instance answered with a failure, or not at all.
    Rejected,
}

/// What the driver must do next.
#[derive(Debug)]
pub enum Directive<'a> {
    /// Evaluate this function and report `Finished`.
    Evaluate(&'a Function),
    /// Suspend for this many milliseconds and report `Woke`.
    Suspend { tracing_name: &'a str, millis: u64 },
    /// Draw one uniform sample of the unit interval and report `Sampled`.
    Sample,
    /// Open a fresh connection to this destination and report `Connected` or
    /// `Unreachable`.
    Connect { destination: String },
    /// Send an empty request with this metadata to this entry point, and
    /// report `Answered` or `Rejected`.
    Invoke { grpc_method: GrpcMethod, metadata: Vec<(String, String)> },
    /// The action has ended in this result.
    Finish(ThespianResult),
}

/// The mathematical value of a [`Directive`].
pub enum DirectiveView {
    Evaluate(FunctionView),
    Suspend { tracing_name: Seq<char>, millis: u64 },
    Sample,
    Connect { destination: Seq<char> },
    Invoke { grpc_method: GrpcMethod, metadata: Seq<(Seq<char>, Seq<char>)> },
    Finish(ThespianResult),
}

impl<'a> View for Directive<'a> {
    type V = DirectiveView;

    open spec fn view(&self) -> DirectiveView {
        match self {
            Directive::Evaluate(function) => DirectiveView::Evaluate(function@),
            Directive::Suspend { tracing_name, millis } => DirectiveView::Suspend {
                tracing_name: tracing_name@,
                millis: *millis,
            },
            Directive::Sample => DirectiveView::Sample,
            Directive::Connect { destination } => DirectiveView::Connect {
                destination: destination@,
            },
            Directive::Invoke { grpc_method, metadata } => DirectiveView::Invoke {
                grpc_method: *grpc_method,
                metadata: entry_views(metadata@),
            },
            Directive::Finish(result) => DirectiveView::Finish(*result),
        }
    }
}

/// The mathematical value of one step of an action: the stage reached and the
/// directive given, or nothing where the event does not fit the stage.
pub open spec fn step_view(step: Option<(Stage, Directive)>) -> Option<(Stage, DirectiveView)> {
    match step {
        Some((stage, directive)) => Some((stage, directive@)),
        None => None,
    }
}

} // verus!
