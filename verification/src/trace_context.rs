//! The trace context of a request and its text form on the wire.

use crate::hex::hex;
use opentelemetry::propagation::TextMapPropagator;
use opentelemetry::sdk::propagation::TraceContextPropagator;
use opentelemetry::trace::{SpanContext, SpanId, TraceContextExt, TraceFlags, TraceId, TraceState};
use opentelemetry::Context;
use std::collections::HashMap;
use vstd::prelude::*;
use vstd::string::StringExecFns;

verus! {

/// The identifiers that link the spans of one logical trace across processes.
#[derive(Clone, Copy, Debug, PartialEq, Eq, Structural)]
pub struct TraceContext {
    pub trace_id: u128,
    pub span_id: u64,
    pub sampled: bool,
}

/// The wire text of a trace context: version, trace identifier, parent span
/// identifier and flags, in lowercase hexadecimal, joined by hyphens.
pub open spec fn traceparent_text(trace_id: u128, span_id: u64, sampled: bool) -> Seq<char> {
    seq!['0', '0', '-'] + hex(trace_id as nat, 32) + seq!['-'] + hex(span_id as nat, 16) + seq![
        '-',
        '0',
        if sampled {
            '1'
        } else {
            '0'
        },
    ]
}

/// The name of the metadata entry that carries a trace context, inbound and
/// outbound alike.
pub open spec fn carrier_key() -> Seq<char> {
    "traceparent"@
}

/// The mathematical value of metadata: its entries, each a name and a value.
pub open spec fn entry_views(entries: Seq<(String, String)>) -> Seq<(Seq<char>, Seq<char>)> {
    Seq::new(entries.len(), |i: int| (entries[i].0@, entries[i].1@))
}

/// The value of the first entry at or behind `from` that stands under `name`.
pub open spec fn entry_value(
    metadata: Seq<(Seq<char>, Seq<char>)>,
    name: Seq<char>,
    from: int,
) -> Option<Seq<char>>
    decreases metadata.len() - from,
{
    if from < 0 || from >= metadata.len() {
        None
    } else if metadata[from].0 == name {
        Some(metadata[from].1)
    } else {
        entry_value(metadata, name, from + 1)
    }
}

/// What the trace-context propagator reads out of a `traceparent` value: trace
/// identifier, span identifier and sampling flag, or nothing where it rejects
/// the text.
pub uninterp spec fn traceparent_context(header: Seq<char>) -> Option<(u128, u64, bool)>;

/// Calls `TraceContextPropagator::inject_context` of opentelemetry on a remote
/// span context with the given identifiers and an empty trace state, and hands
/// back what it stored under `traceparent`. The propagator writes the entry
/// only for a context whose two identifiers are both non-zero, and writes it as
/// `traceparent_text` says.
#[verifier::external_body]
fn inject_traceparent(trace_id: u128, span_id: u64, sampled: bool) -> (header: Option<String>)
    ensures
        match header {
            Some(text) => trace_id != 0 && span_id != 0 && text@ == traceparent_text(
                trace_id,
                span_id,
                sampled,
            ),
            None => trace_id == 0 || span_id == 0,
        },
{
    let flags = TraceFlags::new(u8::from(sampled));
    let span = SpanContext::new(TraceId::from(trace_id), SpanId::from(span_id), flags, true, TraceState::default());
    let mut carrier = HashMap::<String, String>::new();
    TraceContextPropagator::new().inject_context(&Context::new().with_remote_span_context(span), &mut carrier);
    carrier.remove("traceparent")
}

/// Calls `TraceContextPropagator::extract_with_context` of opentelemetry on an
/// empty context and a carrier that holds `header` under `traceparent`, and
/// hands back the identifiers of the span context it found, if it found one.
#[verifier::external_body]
fn extract_traceparent(header: &str) -> (context: Option<(u128, u64, bool)>)
    ensures
        context == traceparent_context(header@),
{
    let mut carrier = HashMap::<String, String>::new();
    carrier.insert("traceparent".to_string(), header.to_string());
    let found = TraceContextPropagator::new().extract_with_context(&Context::new(), &carrier);
    let span = found.span().span_context().clone();
    let trace_id = u128::from_be_bytes(span.trace_id().to_bytes());
    let span_id = u64::from_be_bytes(span.span_id().to_bytes());
    found.has_active_span().then_some((trace_id, span_id, span.is_sampled()))
}

/// The context that a `traceparent` value carries.
pub open spec fn context_of(header: Seq<char>) -> Option<TraceContext> {
    match traceparent_context(header) {
        Some((trace_id, span_id, sampled)) => Some((TraceContext { trace_id, span_id, sampled })),
        None => None,
    }
}

/// The metadata under which a context travels with an outbound call: one
/// entry, its wire text under the carrier's name; for a context that is not
/// valid, none.
pub open spec fn carried(context: TraceContext) -> Seq<(Seq<char>, Seq<char>)> {
    if context.valid() {
        seq![
            (carrier_key(), traceparent_text(context.trace_id, context.span_id, context.sampled)),
        ]
    } else {
        Seq::empty()
    }
}

/// The context that inbound metadata carries: that of the first entry under
/// the carrier's name, if there is such an entry and the propagator accepts
/// its value.
pub open spec fn read_out(metadata: Seq<(Seq<char>, Seq<char>)>) -> Option<TraceContext> {
    match entry_value(metadata, carrier_key(), 0) {
        Some(header) => context_of(header),
        None => None,
    }
}

impl TraceContext {
    /// Whether both identifiers are non-zero.
    pub open spec fn valid(self) -> bool {
        self.trace_id != 0 && self.span_id != 0
    }

    /// Whether both identifiers are non-zero.
    pub fn is_valid(&self) -> (valid: bool)
        ensures
            valid == self.valid(),
    {
        self.trace_id != 0 && self.span_id != 0
    }

    /// The `traceparent` value that carries this context to a downstream
    /// instance, or nothing for a context that is not valid.
    pub fn traceparent(&self) -> (header: Option<String>)
        ensures
            header is Some <==> self.valid(),
            header matches Some(text) ==> text@ == traceparent_text(
                self.trace_id,
                self.span_id,
                self.sampled,
            ),
    {
        inject_traceparent(self.trace_id, self.span_id, self.sampled)
    }

    /// The context that a `traceparent` value carries, as the propagator reads it.
    pub fn from_traceparent(header: &str) -> (context: Option<TraceContext>)
        ensures
            context == context_of(header@),
    {
        match extract_traceparent(header) {
            Some((trace_id, span_id, sampled)) => Some(TraceContext { trace_id, span_id, sampled }),
            None => None,
        }
    }

    /// Writes this context into the metadata of an outbound call.
    pub fn inject(&self) -> (metadata: Vec<(String, String)>)
        ensures
            entry_views(metadata@) == carried(*self),
    {
        let mut metadata: Vec<(String, String)> = Vec::new();
        match self.traceparent() {
            Some(header) => {
                let ghost text = header@;
                metadata.push((String::from_str("traceparent"), header));
                assert(entry_views(metadata@) =~= seq![(carrier_key(), text)]);
            },
            None => {
                assert(entry_views(metadata@) =~= Seq::empty());
            },
        }
        metadata
    }

    /// Reads the context of the caller out of the metadata of an inbound
    /// request.
    pub fn extract(metadata: &Vec<(String, String)>) -> (context: Option<TraceContext>)
        ensures
            context == read_out(entry_views(metadata@)),
    {
        let key = String::from_str("traceparent");
        let mut at: usize = 0;
        while at < metadata.len()
            invariant
                at <= metadata.len(),
                key@ == carrier_key(),
                entry_value(entry_views(metadata@), carrier_key(), 0) == entry_value(
                    entry_views(metadata@),
                    carrier_key(),
                    at as int,
                ),
            decreases metadata.len() - at,
        {
            if metadata[at].0 == key {
                return TraceContext::from_traceparent(metadata[at].1.as_str());
            }
            at = at + 1;
        }
        None
    }
}

} // verus!
