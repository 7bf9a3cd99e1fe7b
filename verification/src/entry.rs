//! Entry points: what a request to one of them is answered with.

use crate::failure::ThespianResult;
use crate::workflow::{Function, FunctionView, OptionalFunction};
use vstd::prelude::*;

verus! {

/// The answer to a request.
#[derive(Debug, PartialEq, Eq)]
pub enum Reply {
    /// An empty response.
    Success,
    /// An internal-error status with this opaque message.
    Internal(String),
}

/// The mathematical value of a [`Reply`].
pub enum ReplyView {
    Success,
    Internal(Seq<char>),
}

impl View for Reply {
    type V = ReplyView;

    open spec fn view(&self) -> ReplyView {
        match self {
            Reply::Success => ReplyView::Success,
            Reply::Internal(message) => ReplyView::Internal(message@),
        }
    }
}

/// What the driver of an entry point must do next.
#[derive(Debug)]
pub enum Entry<'a> {
    /// Evaluate this function and report its result.
    Evaluate(&'a Function),
    /// Answer the request with this reply.
    Respond(Reply),
}

/// The mathematical value of an [`Entry`].
pub enum EntryView {
    Evaluate(FunctionView),
    Respond(ReplyView),
}

impl<'a> View for Entry<'a> {
    type V = EntryView;

    open spec fn view(&self) -> EntryView {
        match self {
            Entry::Evaluate(function) => EntryView::Evaluate(function@),
            Entry::Respond(reply) => EntryView::Respond(reply@),
        }
    }
}

/// The reply that a result becomes at the boundary: success stays success,
/// and any failure becomes an internal error that carries the reason's opaque
/// message and nothing else.
pub open spec fn reply_of(result: ThespianResult) -> ReplyView {
    match result {
        Ok(_) => ReplyView::Success,
        Err(reason) => ReplyView::Internal(reason.message_text()),
    }
}

/// One step of an entry point. An entry point bound to no function answers
/// with success at once. One bound to a function has it evaluated first, and
/// answers with what its result becomes.
pub open spec fn entry_step(bound: Option<FunctionView>, event: Option<ThespianResult>) -> EntryView {
    match bound {
        None => EntryView::Respond(ReplyView::Success),
        Some(function) => match event {
            None => EntryView::Evaluate(function),
            Some(result) => EntryView::Respond(reply_of(result)),
        },
    }
}

/// The reply that `result` becomes at the boundary.
pub fn reply(result: ThespianResult) -> (answer: Reply)
    ensures
        answer@ == reply_of(result),
{
    match result {
        Ok(_) => Reply::Success,
        Err(reason) => Reply::Internal(reason.message()),
    }
}

impl OptionalFunction {
    /// Takes a request to this entry point one step further: without an event
    /// the request has just arrived, with one the bound function has ended in
    /// that result.
    pub fn enact<'a>(&'a self, event: Option<ThespianResult>) -> (step: Entry<'a>)
        ensures
            step@ == entry_step(self@, event),
    {
        match &self.0 {
            None => Entry::Respond(Reply::Success),
            Some(function) => match event {
                None => Entry::Evaluate(function),
                Some(result) => Entry::Respond(reply(result)),
            },
        }
    }
}

} // verus!
