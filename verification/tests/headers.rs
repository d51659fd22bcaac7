use rust_otel_auto::headers::HeaderExtractor;
use rust_otel_auto::propagator::W3CTraceContextPropagator;

#[test]
fn test_header_extractor() {
    let headers = vec![
        ("traceparent", "00-4bf92f3577b34da6a3ce929d0e0e4736-00f067aa0ba902b7-01"),
    ];
    let extractor = HeaderExtractor::new(headers);
    assert_eq!(
        extractor.get("traceparent"),
        Some("00-4bf92f3577b34da6a3ce929d0e0e4736-00f067aa0ba902b7-01")
    );
}

#[test]
fn header_names_match_without_case_and_last_wins() {
    let extractor = HeaderExtractor::new(vec![
        ("TraceParent", "first"),
        ("X-Other", "x"),
        ("TRACEPARENT", "second"),
    ]);
    assert_eq!(extractor.get("traceparent"), Some("second"));
    assert_eq!(extractor.get("x-other"), Some("x"));
    assert_eq!(extractor.get("missing"), None);
    let mut keys = extractor.keys();
    keys.sort();
    assert_eq!(keys, vec!["traceparent", "x-other"]);
}

#[test]
fn test_extract_context_empty() {
    let headers: Vec<(&str, &str)> = vec![];
    let extractor = HeaderExtractor::new(headers);
    assert!(extractor.get("traceparent").is_none());
    assert!(W3CTraceContextPropagator::extract_span_context(extractor.get("traceparent")).is_none());
}

#[test]
fn inject_then_extract_through_headers() {
    let sc = rust_otel_auto::propagator::SpanContextValue {
        trace_id: 42,
        span_id: 7,
        trace_flags: 1,
        is_remote: false,
    };
    let value = W3CTraceContextPropagator::inject_traceparent(&sc).unwrap();
    let extractor = HeaderExtractor::new(vec![("Traceparent", value.as_str())]);
    let back = W3CTraceContextPropagator::extract_span_context(extractor.get("traceparent")).unwrap();
    assert_eq!((back.trace_id, back.span_id, back.trace_flags, back.is_remote), (42, 7, 1, true));
}
