use opentelemetry::trace::TraceId;
use thespian::get_trace_id::get_trace_id;
use thespian::protocol::{Directive, Event, Stage};
use thespian::trace_context::TraceContext;
use thespian::workflow::{Action, GrpcMethod};

fn context(trace_id: u128, span_id: u64, sampled: bool) -> TraceContext {
    TraceContext { trace_id, span_id, sampled }
}

#[test]
fn trace_id_is_thirty_two_lowercase_hex_digits() {
    let text = get_trace_id(&context(0x4bf9_2f35_77b3_4da6_a3ce_929d_0e0e_4736, 1, true));
    assert_eq!(text, "4bf92f3577b34da6a3ce929d0e0e4736");
}

#[test]
fn trace_id_is_padded_with_zeros() {
    assert_eq!(get_trace_id(&context(0xab, 1, false)), "000000000000000000000000000000ab");
    assert_eq!(get_trace_id(&context(0, 0, false)), "00000000000000000000000000000000");
    assert_eq!(get_trace_id(&context(u128::MAX, 1, false)), "ffffffffffffffffffffffffffffffff");
}

#[test]
fn trace_id_reads_as_the_tracing_library_prints_it() {
    for id in [1u128, 0xdead_beef, 0x0123_4567_89ab_cdef_0123_4567_89ab_cdef, u128::MAX] {
        assert_eq!(get_trace_id(&context(id, 7, true)), TraceId::from(id).to_string());
    }
}

#[test]
fn traceparent_of_a_sampled_context() {
    let header = context(0x4bf9_2f35_77b3_4da6_a3ce_929d_0e0e_4736, 0x00f0_67aa_0ba9_02b7, true)
        .traceparent();
    assert_eq!(
        header,
        Some("00-4bf92f3577b34da6a3ce929d0e0e4736-00f067aa0ba902b7-01".to_string())
    );
}

#[test]
fn traceparent_of_an_unsampled_context() {
    let header = context(0x4bf9_2f35_77b3_4da6_a3ce_929d_0e0e_4736, 0x00f0_67aa_0ba9_02b7, false)
        .traceparent();
    assert_eq!(
        header,
        Some("00-4bf92f3577b34da6a3ce929d0e0e4736-00f067aa0ba902b7-00".to_string())
    );
}

#[test]
fn traceparent_pads_short_identifiers() {
    assert_eq!(
        context(1, 2, true).traceparent(),
        Some("00-00000000000000000000000000000001-0000000000000002-01".to_string())
    );
}

#[test]
fn no_traceparent_for_a_context_that_is_not_valid() {
    assert_eq!(context(0, 5, true).traceparent(), None);
    assert_eq!(context(5, 0, true).traceparent(), None);
    assert_eq!(context(0, 0, false).traceparent(), None);
    assert!(!context(0, 5, true).is_valid());
    assert!(!context(5, 0, true).is_valid());
    assert!(context(5, 5, false).is_valid());
}

#[test]
fn traceparent_is_read_back() {
    assert_eq!(
        TraceContext::from_traceparent("00-4bf92f3577b34da6a3ce929d0e0e4736-00f067aa0ba902b7-01"),
        Some(context(0x4bf9_2f35_77b3_4da6_a3ce_929d_0e0e_4736, 0x00f0_67aa_0ba9_02b7, true))
    );
    assert_eq!(
        TraceContext::from_traceparent("00-4bf92f3577b34da6a3ce929d0e0e4736-00f067aa0ba902b7-00"),
        Some(context(0x4bf9_2f35_77b3_4da6_a3ce_929d_0e0e_4736, 0x00f0_67aa_0ba9_02b7, false))
    );
}

#[test]
fn malformed_traceparent_is_turned_down() {
    for header in [
        "",
        "not a trace context",
        "00-4bf92f3577b34da6a3ce929d0e0e4736-00f067aa0ba902b7",
        "00-4bf92f3577b34da6a3ce929d0e0e4736-00f067aa0ba902b7-",
        "00-00000000000000000000000000000000-0000000000000000-01",
        "00-AB000000000000000000000000000000-cd00000000000000-01",
        "00-ab000000000000000000000000000000-cd00000000000000-09",
        "qw-00000000000000000000000000000000-0000000000000000-01",
        "00-ab00000000000000000000000000000000-cd00000000000000-01",
    ] {
        assert_eq!(TraceContext::from_traceparent(header), None, "{}", header);
    }
}

#[test]
fn trace_context_survives_the_wire() {
    for &(trace_id, span_id, sampled) in &[
        (1u128, 1u64, false),
        (0x4bf9_2f35_77b3_4da6_a3ce_929d_0e0e_4736, 0x00f0_67aa_0ba9_02b7, true),
        (u128::MAX, u64::MAX, true),
        (0x1000, 0xffff_0000, false),
    ] {
        let sent = context(trace_id, span_id, sampled);
        let header = sent.traceparent().unwrap();
        assert_eq!(TraceContext::from_traceparent(&header), Some(sent));
    }
}

#[test]
fn a_call_carries_the_trace_of_the_inbound_request_to_the_next_instance() {
    // the request that reaches the first instance carries a trace context
    let inbound = "00-4bf92f3577b34da6a3ce929d0e0e4736-00f067aa0ba902b7-01";
    let parent = TraceContext::from_traceparent(inbound).unwrap();
    // its own span continues that trace under a span identifier of its own
    let current = TraceContext { span_id: 0x1111_2222_3333_4444, ..parent };

    let only_action = Action::CallService {
        service_address: "http://second".to_string(),
        service_port: "6379".to_string(),
        grpc_method: GrpcMethod::A,
    };
    let (stage, _) = only_action.enact(Stage::Idle, Event::Begin).unwrap();
    let metadata = match only_action.enact(stage, Event::Connected(current)) {
        Some((Stage::Invoking, Directive::Invoke { metadata, .. })) => metadata,
        other => panic!("{:?}", other),
    };

    // the second instance reads the context out of the metadata of the call
    let received = TraceContext::extract(&metadata).unwrap();
    assert_eq!(received.trace_id, parent.trace_id);
    assert_eq!(received.span_id, current.span_id);
    assert_eq!(get_trace_id(&received), "4bf92f3577b34da6a3ce929d0e0e4736");
    assert_eq!(get_trace_id(&received), get_trace_id(&parent));
}

fn entry(name: &str, value: &str) -> (String, String) {
    (name.to_string(), value.to_string())
}

#[test]
fn a_valid_context_is_written_as_one_entry() {
    let sent = context(0x4bf9_2f35_77b3_4da6_a3ce_929d_0e0e_4736, 0x00f0_67aa_0ba9_02b7, true);
    assert_eq!(
        sent.inject(),
        vec![entry("traceparent", "00-4bf92f3577b34da6a3ce929d0e0e4736-00f067aa0ba902b7-01")]
    );
    assert_eq!(context(0, 0, true).inject(), vec![]);
    assert_eq!(context(9, 0, true).inject(), vec![]);
}

#[test]
fn the_context_is_read_from_the_first_entry_under_the_carriers_name() {
    let first = "00-4bf92f3577b34da6a3ce929d0e0e4736-00f067aa0ba902b7-01";
    let second = "00-11111111111111111111111111111111-2222222222222222-00";
    let metadata = vec![
        entry("content-type", "application/grpc"),
        entry("tracestate", "foo=bar"),
        entry("traceparent", first),
        entry("traceparent", second),
    ];
    assert_eq!(
        TraceContext::extract(&metadata),
        Some(context(0x4bf9_2f35_77b3_4da6_a3ce_929d_0e0e_4736, 0x00f0_67aa_0ba9_02b7, true))
    );
}

#[test]
fn metadata_without_a_usable_entry_carries_no_context() {
    assert_eq!(TraceContext::extract(&vec![]), None);
    assert_eq!(TraceContext::extract(&vec![entry("content-type", "application/grpc")]), None);
    assert_eq!(TraceContext::extract(&vec![entry("traceparent", "garbled")]), None);
    assert_eq!(
        TraceContext::extract(&vec![
            entry("traceparent", "garbled"),
            entry("traceparent", "00-4bf92f3577b34da6a3ce929d0e0e4736-00f067aa0ba902b7-01"),
        ]),
        None
    );
    assert_eq!(
        TraceContext::extract(&vec![entry(
            "Traceparent",
            "00-4bf92f3577b34da6a3ce929d0e0e4736-00f067aa0ba902b7-01"
        )]),
        None
    );
}

#[test]
fn what_is_written_is_read_back() {
    for &(trace_id, span_id, sampled) in
        &[(1u128, 1u64, false), (u128::MAX, u64::MAX, true), (0xabc, 0xdef, true)]
    {
        let sent = context(trace_id, span_id, sampled);
        assert_eq!(TraceContext::extract(&sent.inject()), Some(sent));
    }
    assert_eq!(TraceContext::extract(&context(0, 1, true).inject()), None);
}
