//! Recording attributes and status on the span of an OpenTelemetry context.
use opentelemetry::trace::{Status, TraceContextExt};
use opentelemetry::KeyValue;
use vstd::prelude::*;

use crate::middleware::common::classify_status_code;
use crate::span::{
    http_error_text, int_attr, is_error_status, is_int_attr, is_str_attr, str_attr, Attribute, AttributeValue, SpanStatus,
    GRAPHQL_OPERATION_NAME, GRAPHQL_OPERATION_TYPE, HTTP_REQUEST_METHOD,
    HTTP_RESPONSE_STATUS_CODE, HTTP_ROUTE, URL_FULL,
};

verus! {

/// `TraceContextExt::span(cx).set_attribute(KeyValue::new(key, value))` from
/// opentelemetry: records one attribute on the context's span.  The span is
/// outside the verified state: nothing is stated.
#[verifier::external_body]
fn context_set_attribute(cx: &opentelemetry::Context, attribute: &Attribute) {
    let kv = match &attribute.value {
        AttributeValue::Str(s) => KeyValue::new(attribute.key.clone(), s.clone()),
        AttributeValue::Int(n) => KeyValue::new(attribute.key.clone(), *n),
    };
    cx.span().set_attribute(kv);
}

/// `TraceContextExt::span(cx).set_status(status)` from opentelemetry: records
/// the span's status.  The span is outside the verified state: nothing is stated.
#[verifier::external_body]
fn context_set_status(cx: &opentelemetry::Context, status: &SpanStatus) {
    let s = match status {
        SpanStatus::Unset => Status::Unset,
        SpanStatus::Success => Status::Ok,
        SpanStatus::Error(d) => Status::error(d.clone()),
    };
    cx.span().set_status(s);
}

/// The attributes of an HTTP request: method, full URL, and route when known.
pub fn http_request_attributes(method: &str, url: &str, route: Option<&str>) -> (r: Vec<
    Attribute,
>)
    ensures
        r@.len() == if route is Some {
            3int
        } else {
            2int
        },
        is_str_attr(r@[0], HTTP_REQUEST_METHOD@, method@),
        is_str_attr(r@[1], URL_FULL@, url@),
        route matches Some(rt) ==> is_str_attr(r@[2], HTTP_ROUTE@, rt@),
{
    let mut out = Vec::new();
    out.push(str_attr(HTTP_REQUEST_METHOD, method));
    out.push(str_attr(URL_FULL, url));
    if let Some(rt) = route {
        out.push(str_attr(HTTP_ROUTE, rt));
    }
    out
}

/// The status-code attribute of an HTTP response.
pub fn http_response_attribute(status_code: u16) -> (r: Attribute)
    ensures
        is_int_attr(r, HTTP_RESPONSE_STATUS_CODE@, status_code as int),
{
    int_attr(HTTP_RESPONSE_STATUS_CODE, status_code as i64)
}

/// The status a server span records for a response: an error described as
/// `HTTP {code}` from 500 on; below that the status is left as it is.
pub fn http_response_status(code: u16) -> (r: Option<SpanStatus>)
    ensures
        code >= 500 ==> (r matches Some(s) && is_error_status(s, http_error_text(code))),
        code < 500 ==> r is None,
{
    if code >= 500 {
        Some(classify_status_code(code))
    } else {
        None
    }
}

/// The attributes of a GraphQL operation: the name when known, then the type.
pub fn graphql_attributes(operation_name: Option<&str>, operation_type: &str) -> (r: Vec<
    Attribute,
>)
    ensures
        r@.len() == if operation_name is Some {
            2int
        } else {
            1int
        },
        operation_name matches Some(n) ==> is_str_attr(r@[0], GRAPHQL_OPERATION_NAME@, n@),
        is_str_attr(r@[r@.len() - 1], GRAPHQL_OPERATION_TYPE@, operation_type@),
{
    let mut out = Vec::new();
    if let Some(n) = operation_name {
        out.push(str_attr(GRAPHQL_OPERATION_NAME, n));
    }
    out.push(str_attr(GRAPHQL_OPERATION_TYPE, operation_type));
    out
}

fn set_all(cx: &opentelemetry::Context, attributes: &Vec<Attribute>) {
    let mut i: usize = 0;
    while i < attributes.len()
        invariant
            i <= attributes@.len(),
        decreases attributes@.len() - i,
    {
        context_set_attribute(cx, &attributes[i]);
        i = i + 1;
    }
}

/// Extension trait for recording on the span of a context.
pub trait SpanExt {
    /// Set an error status on the span.
    fn set_error(&self, message: &str);

    /// Set a success status on the span.
    fn set_ok(&self);

    /// Add HTTP request attributes to the span.
    fn set_http_request_attributes(&self, method: &str, url: &str, route: Option<&str>);

    /// Add HTTP response attributes to the span; a server error also sets an error status.
    fn set_http_response_attributes(&self, status_code: u16);

    /// Add GraphQL attributes to the span.
    fn set_graphql_attributes(&self, operation_name: Option<&str>, operation_type: &str);
}

impl SpanExt for opentelemetry::Context {
    fn set_error(&self, message: &str) {
        context_set_status(self, &crate::span::error_status(message));
    }

    fn set_ok(&self) {
        context_set_status(self, &SpanStatus::Success);
    }

    fn set_http_request_attributes(&self, method: &str, url: &str, route: Option<&str>) {
        let attributes = http_request_attributes(method, url, route);
        set_all(self, &attributes);
    }

    fn set_http_response_attributes(&self, status_code: u16) {
        context_set_attribute(self, &http_response_attribute(status_code));
        if let Some(status) = http_response_status(status_code) {
            context_set_status(self, &status);
        }
    }

    fn set_graphql_attributes(&self, operation_name: Option<&str>, operation_type: &str) {
        let attributes = graphql_attributes(operation_name, operation_type);
        set_all(self, &attributes);
    }
}

} // verus!
