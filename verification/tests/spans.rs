use rust_otel_auto::client::{client_span, client_span_fields, client_span_for};
use rust_otel_auto::layer::{http_flavor, matched_route_name, HttpVersion, OtelMakeSpan};
use rust_otel_auto::middleware::common::{
    classify_client_status_code, classify_status_code, service_error_status, span_name,
};
use rust_otel_auto::middleware::{actix, axum};
use rust_otel_auto::span::{
    graphql_span, http_client_span, http_error_description, http_server_span, join_method,
    Attribute, AttributeValue, SpanBuilder, SpanKind, SpanStatus,
};
use rust_otel_auto::span_ext::{
    graphql_attributes, http_request_attributes, http_response_attribute, http_response_status,
};
use rust_otel_auto::middleware::common::{
    client_exchange_record, server_exchange_record, service_exchange_record, ExchangeRecord,
};

fn str_of(a: &Attribute) -> (String, String) {
    match &a.value {
        AttributeValue::Str(s) => (a.key.clone(), s.clone()),
        AttributeValue::Int(n) => (a.key.clone(), format!("#{}", n)),
    }
}

fn attrs(b: &SpanBuilder) -> Vec<(String, String)> {
    b.attributes.iter().map(str_of).collect()
}

fn pairs(v: &[(&str, &str)]) -> Vec<(String, String)> {
    v.iter().map(|(k, v)| (k.to_string(), v.to_string())).collect()
}

#[test]
fn span_name_prefers_route() {
    assert_eq!(span_name("GET", "/users/42", Some("/users/:id")), "GET /users/:id");
    assert_eq!(span_name("POST", "/users", None), "POST /users");
    assert_eq!(join_method("DELETE", ""), "DELETE ");
}

#[test]
fn server_status_errors_from_500() {
    assert!(matches!(classify_status_code(499), SpanStatus::Success));
    assert!(matches!(classify_status_code(200), SpanStatus::Success));
    match classify_status_code(503) {
        SpanStatus::Error(d) => assert_eq!(d, "HTTP 503"),
        _ => panic!("expected an error status"),
    }
}

#[test]
fn client_status_errors_from_400() {
    assert!(matches!(classify_client_status_code(399), SpanStatus::Success));
    match classify_client_status_code(404) {
        SpanStatus::Error(d) => assert_eq!(d, "HTTP 404"),
        _ => panic!("expected an error status"),
    }
    match service_error_status() {
        SpanStatus::Error(d) => assert_eq!(d, "Service error"),
        _ => panic!("expected an error status"),
    }
    assert_eq!(http_error_description(0), "HTTP 0");
    assert_eq!(http_error_description(65535), "HTTP 65535");
}

#[test]
fn builder_sets_kind_and_attributes() {
    let b = SpanBuilder::producer("send")
        .attribute("k", AttributeValue::Int(3))
        .attributes(vec![Attribute { key: "s".to_string(), value: AttributeValue::Str("v".to_string()) }]);
    assert_eq!(b.name, "send");
    assert_eq!(b.kind, SpanKind::Producer);
    assert_eq!(attrs(&b), pairs(&[("k", "#3"), ("s", "v")]));
    assert_eq!(SpanBuilder::consumer("c").kind, SpanKind::Consumer);
    assert_eq!(SpanBuilder::new("i").kind, SpanKind::Internal);
    assert!(SpanBuilder::new("i").parent.is_none());
}

#[test]
fn http_span_helpers() {
    let s = http_server_span("GET", "/users/42", Some("/users/:id"));
    assert_eq!(s.name, "GET /users/:id");
    assert_eq!(s.kind, SpanKind::Server);
    assert_eq!(attrs(&s), pairs(&[("http.request.method", "GET"), ("url.path", "/users/42")]));
    let c = http_client_span("PUT", "https://x/y");
    assert_eq!(c.name, "PUT");
    assert_eq!(c.kind, SpanKind::Client);
    assert_eq!(attrs(&c), pairs(&[("http.request.method", "PUT"), ("url.full", "https://x/y")]));
    let g = graphql_span(Some("GetUser"), "query");
    assert_eq!(g.name, "graphql query GetUser");
    assert_eq!(attrs(&g), pairs(&[("graphql.operation.type", "query"), ("graphql.operation.name", "GetUser")]));
    assert_eq!(graphql_span(None, "mutation").name, "graphql mutation");
}

#[test]
fn axum_middleware_span_defaults() {
    let layer = axum::OtelLayer::new();
    assert_eq!(layer.layer(5u8).tracer_name, "rust-otel-auto");
    assert_eq!(layer.tracer_name("custom").layer(()).tracer_name, "custom");
    let s = axum::request_span("GET", "/a", None, None, Some("curl"));
    assert_eq!(s.name, "GET /a");
    assert_eq!(
        attrs(&s),
        pairs(&[
            ("http.request.method", "GET"),
            ("url.path", "/a"),
            ("url.scheme", "http"),
            ("server.address", "unknown"),
            ("user_agent.original", "curl"),
        ])
    );
}

#[test]
fn actix_middleware_span_attributes() {
    let m = actix::OtelMiddleware::new();
    assert_eq!(m.new_transform(1u32).tracer_name, "rust-otel-auto");
    assert_eq!(m.tracer_name("t").new_transform(1u32).tracer_name, "t");
    let s = actix::request_span("GET", "/users/1", "https", "example.org", None, None, Some("/users/{id}"));
    assert_eq!(s.name, "GET /users/{id}");
    assert_eq!(
        attrs(&s),
        pairs(&[
            ("http.request.method", "GET"),
            ("url.path", "/users/1"),
            ("url.scheme", "https"),
            ("server.address", "example.org"),
            ("http.route", "/users/{id}"),
        ])
    );
    let s = actix::request_span("GET", "/", "http", "h", Some("1.2.3.4:5"), Some("ua"), None);
    assert_eq!(attrs(&s)[4], ("client.address".to_string(), "1.2.3.4:5".to_string()));
    assert_eq!(attrs(&s)[5], ("user_agent.original".to_string(), "ua".to_string()));
}

#[test]
fn client_span_reads_host_and_port() {
    let s = client_span("GET", "https://api.example.com:8443/users");
    assert_eq!(s.name, "GET api.example.com");
    assert_eq!(
        attrs(&s),
        pairs(&[
            ("http.request.method", "GET"),
            ("url.full", "https://api.example.com:8443/users"),
            ("server.address", "api.example.com"),
            ("server.port", "#8443"),
        ])
    );
    let s = client_span("POST", "not a url");
    assert_eq!(s.name, "POST unknown");
    assert_eq!(s.attributes.len(), 3);
    let s = client_span_for("GET", "u", Some("h"), None);
    assert_eq!(s.name, "GET h");
}

#[test]
fn tracing_client_fields() {
    let f = client_span_fields("GET", "http://example.com/x");
    assert_eq!(f.peer, "example.com");
    assert_eq!(f.otel_name, "GET example.com");
    let f = client_span_fields("GET", "::nonsense::");
    assert_eq!(f.peer, "");
    assert_eq!(f.otel_name, "GET ");
}

#[test]
fn make_span_fields_defaults() {
    let f = OtelMakeSpan.span_fields("GET", Some("/a?b=1"), "/a", HttpVersion::Http2, None, None, None);
    assert_eq!(f.target, "/a?b=1");
    assert_eq!(f.flavor, "2.0");
    assert_eq!(f.scheme, "http");
    assert_eq!(f.host, "localhost");
    let f = OtelMakeSpan.span_fields("GET", None, "/a", HttpVersion::Http09, Some("https"), Some("h1"), Some("h2"));
    assert_eq!(f.target, "/a");
    assert_eq!(f.flavor, "1.1");
    assert_eq!(f.host, "h1");
    let f = OtelMakeSpan.span_fields("GET", None, "/", HttpVersion::Http10, None, None, Some("h2"));
    assert_eq!(f.host, "h2");
    assert_eq!(http_flavor(HttpVersion::Http3), "3.0");
    assert_eq!(http_flavor(HttpVersion::Http11), "1.1");
    assert_eq!(matched_route_name("GET", "/users/:id"), "GET /users/:id");
}

#[test]
fn span_ext_attribute_lists() {
    let a = http_request_attributes("GET", "http://x", Some("/r"));
    assert_eq!(a.iter().map(str_of).collect::<Vec<_>>(), pairs(&[("http.request.method", "GET"), ("url.full", "http://x"), ("http.route", "/r")]));
    assert_eq!(str_of(&http_response_attribute(201)), ("http.response.status_code".to_string(), "#201".to_string()));
    let g = graphql_attributes(Some("Q"), "query");
    assert_eq!(g.iter().map(str_of).collect::<Vec<_>>(), pairs(&[("graphql.operation.name", "Q"), ("graphql.operation.type", "query")]));
    assert_eq!(graphql_attributes(None, "query").len(), 1);
}

fn code_of(r: &ExchangeRecord) -> Option<i64> {
    r.status_code.as_ref().map(|a| match &a.value {
        AttributeValue::Int(n) => {
            assert_eq!(a.key, "http.response.status_code");
            *n
        }
        _ => panic!("expected an integer attribute"),
    })
}

#[test]
fn response_status_only_for_server_errors() {
    assert!(http_response_status(404).is_none());
    assert!(http_response_status(200).is_none());
    assert!(matches!(http_response_status(500), Some(SpanStatus::Error(ref d)) if d == "HTTP 500"));
}

#[test]
fn exchange_records() {
    let r = server_exchange_record(Ok(404));
    assert_eq!(code_of(&r), Some(404));
    assert!(matches!(r.status, SpanStatus::Success));
    let r = server_exchange_record(Ok(502));
    assert!(matches!(r.status, SpanStatus::Error(ref d) if d == "HTTP 502"));
    let r = server_exchange_record(Err("boom"));
    assert_eq!(code_of(&r), None);
    assert!(matches!(r.status, SpanStatus::Error(ref d) if d == "boom"));
    let r = client_exchange_record(Ok(404));
    assert_eq!(code_of(&r), Some(404));
    assert!(matches!(r.status, SpanStatus::Error(ref d) if d == "HTTP 404"));
    let r = client_exchange_record(Err("timed out"));
    assert!(r.status_code.is_none() && matches!(r.status, SpanStatus::Error(ref d) if d == "timed out"));
    let r = service_exchange_record(None);
    assert!(r.status_code.is_none() && matches!(r.status, SpanStatus::Error(ref d) if d == "Service error"));
    let r = service_exchange_record(Some(201));
    assert_eq!(code_of(&r), Some(201));
    assert!(matches!(r.status, SpanStatus::Success));
}
