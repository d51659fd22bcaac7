use rust_otel_auto::ids::{generate_span_id, generate_trace_id};
use rust_otel_auto::propagator::{
    create_root_traceparent, format_root_traceparent, is_sampled, trace_id_text,
    SpanContextValue, W3CTraceContextPropagator, TRACEPARENT_HEADER, TRACESTATE_HEADER,
};

#[test]
fn test_parse_valid_traceparent() {
    let traceparent = "00-4bf92f3577b34da6a3ce929d0e0e4736-00f067aa0ba902b7-01";
    let span_context = W3CTraceContextPropagator::parse_traceparent(traceparent);
    assert!(span_context.is_some());
}

#[test]
fn test_is_sampled() {
    assert!(is_sampled("00-4bf92f3577b34da6a3ce929d0e0e4736-00f067aa0ba902b7-01"));
    assert!(!is_sampled("00-4bf92f3577b34da6a3ce929d0e0e4736-00f067aa0ba902b7-00"));
}

#[test]
fn parse_gives_ids_and_flags() {
    let sc = W3CTraceContextPropagator::parse_traceparent(
        "  00-4bf92f3577b34da6a3ce929d0e0e4736-00f067aa0ba902b7-01\n",
    )
    .unwrap();
    assert_eq!(sc.trace_id, 0x4bf92f3577b34da6a3ce929d0e0e4736);
    assert_eq!(sc.span_id, 0x00f067aa0ba902b7);
    assert_eq!(sc.trace_flags, 1);
    assert!(sc.is_remote);
    assert!(sc.is_valid());
}

#[test]
fn parse_rejects_malformed_values() {
    let p = W3CTraceContextPropagator::parse_traceparent;
    // Wrong number of parts.
    assert!(p("00-4bf92f3577b34da6a3ce929d0e0e4736-00f067aa0ba902b7").is_none());
    assert!(p("00-4bf92f3577b34da6a3ce929d0e0e4736-00f067aa0ba902b7-01-x").is_none());
    // Wrong lengths.
    assert!(p("0-4bf92f3577b34da6a3ce929d0e0e4736-00f067aa0ba902b7-01").is_none());
    assert!(p("00-4bf92f3577b34da6a3ce929d0e0e473-00f067aa0ba902b7-01").is_none());
    assert!(p("00-4bf92f3577b34da6a3ce929d0e0e4736-00f067aa0ba902b-01").is_none());
    assert!(p("00-4bf92f3577b34da6a3ce929d0e0e4736-00f067aa0ba902b7-1").is_none());
    // Not hexadecimal.
    assert!(p("00-4bf92f3577b34da6a3ce929d0e0e47zz-00f067aa0ba902b7-01").is_none());
    assert!(p("00-4bf92f3577b34da6a3ce929d0e0e4736-00f067aa0ba902b7-0g").is_none());
    // Invalid (all-zero) ids.
    assert!(p("00-00000000000000000000000000000000-00f067aa0ba902b7-01").is_none());
    assert!(p("00-4bf92f3577b34da6a3ce929d0e0e4736-0000000000000000-01").is_none());
    assert!(p("").is_none());
}

#[test]
fn parse_accepts_any_two_byte_version_and_upper_case_hex() {
    let sc = W3CTraceContextPropagator::parse_traceparent(
        "ff-4BF92F3577B34DA6A3CE929D0E0E4736-00F067AA0BA902B7-0A",
    )
    .unwrap();
    assert_eq!(sc.trace_id, 0x4bf92f3577b34da6a3ce929d0e0e4736);
    assert_eq!(sc.trace_flags, 10);
    // A two-byte character is a two-byte version too.
    assert!(W3CTraceContextPropagator::parse_traceparent(
        "é-4bf92f3577b34da6a3ce929d0e0e4736-00f067aa0ba902b7-01"
    )
    .is_some());
    // A leading plus sign is read as a sign by the hexadecimal parser.
    assert!(W3CTraceContextPropagator::parse_traceparent(
        "00-+bf92f3577b34da6a3ce929d0e0e4736-00f067aa0ba902b7-01"
    )
    .is_some());
}

#[test]
fn format_writes_fixed_width_lower_hex() {
    let sc = SpanContextValue { trace_id: 0xabc, span_id: 0x1f, trace_flags: 1, is_remote: false };
    assert_eq!(
        W3CTraceContextPropagator::format_traceparent(&sc),
        "00-00000000000000000000000000000abc-000000000000001f-01"
    );
}

#[test]
fn format_then_parse_roundtrip() {
    let sc = SpanContextValue {
        trace_id: 0x4bf92f3577b34da6a3ce929d0e0e4736,
        span_id: 0x00f067aa0ba902b7,
        trace_flags: 0x03,
        is_remote: false,
    };
    let text = W3CTraceContextPropagator::format_traceparent(&sc);
    let back = W3CTraceContextPropagator::parse_traceparent(&text).unwrap();
    assert_eq!(back, SpanContextValue { is_remote: true, ..sc });
    assert!(is_sampled(&text));
}

#[test]
fn inject_only_valid_contexts() {
    let valid = SpanContextValue { trace_id: 1, span_id: 2, trace_flags: 0, is_remote: false };
    let injected = W3CTraceContextPropagator::inject_traceparent(&valid).unwrap();
    assert_eq!(injected, "00-00000000000000000000000000000001-0000000000000002-00");
    let invalid = SpanContextValue { trace_id: 0, span_id: 2, trace_flags: 1, is_remote: false };
    assert!(W3CTraceContextPropagator::inject_traceparent(&invalid).is_none());
}

#[test]
fn extract_from_header_value() {
    let sc = W3CTraceContextPropagator::extract_span_context(Some(
        "00-4bf92f3577b34da6a3ce929d0e0e4736-00f067aa0ba902b7-01",
    ));
    assert_eq!(sc.unwrap().span_id, 0x00f067aa0ba902b7);
    assert!(W3CTraceContextPropagator::extract_span_context(None).is_none());
    assert!(W3CTraceContextPropagator::extract_span_context(Some("garbage")).is_none());
}

#[test]
fn fields_are_the_two_headers() {
    assert_eq!(W3CTraceContextPropagator::fields(), [TRACEPARENT_HEADER, TRACESTATE_HEADER]);
    assert_eq!(TRACEPARENT_HEADER, "traceparent");
    assert_eq!(TRACESTATE_HEADER, "tracestate");
}

#[test]
fn root_traceparent_has_requested_flag() {
    let text = format_root_traceparent(0x1234, 0x56, true);
    assert_eq!(text, "00-00000000000000000000000000001234-0000000000000056-01");
    assert!(is_sampled(&text));
    let text = format_root_traceparent(0x1234, 0x56, false);
    assert!(text.ends_with("-00"));
    assert!(!is_sampled(&text));
    let root = create_root_traceparent(true);
    assert_eq!(root.len(), 55);
    assert!(root.starts_with("00-"));
    assert!(root.ends_with("-01"));
}

#[test]
fn generated_ids_are_random() {
    let a = (generate_trace_id(), generate_span_id());
    let b = (generate_trace_id(), generate_span_id());
    assert_ne!(a, b);
}

#[test]
fn trace_id_text_for_valid_and_invalid_contexts() {
    let sc = SpanContextValue {
        trace_id: 0x4bf92f3577b34da6a3ce929d0e0e4736,
        span_id: 1,
        trace_flags: 0,
        is_remote: false,
    };
    assert_eq!(trace_id_text(&sc), "4bf92f3577b34da6a3ce929d0e0e4736");
    let none = SpanContextValue { trace_id: 5, span_id: 0, trace_flags: 0, is_remote: false };
    assert_eq!(trace_id_text(&none), "00000000000000000000000000000000");
}
