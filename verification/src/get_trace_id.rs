//! The trace identifier of a request, as text.

use crate::hex::{hex, push_hex};
use crate::trace_context::TraceContext;
use vstd::prelude::*;

verus! {

/// The trace identifier of `context` as thirty-two lowercase hexadecimal
/// digits: the form in which logs and spans carry it.
pub fn get_trace_id(context: &TraceContext) -> (text: String)
    ensures
        text@ == hex(context.trace_id as nat, 32),
{
    let mut text = String::new();
    push_hex(&mut text, context.trace_id, 32);
    text
}

} // verus!
