//! Span naming and status rules shared by the HTTP middlewares.
use vstd::prelude::*;

use crate::span::{
    error_status, http_error_description, http_error_text, int_attr, is_error_status,
    is_int_attr, join_method, joined, Attribute, SpanStatus, HTTP_RESPONSE_STATUS_CODE,
};

pub use crate::headers::HeaderExtractor;

verus! {

/// Generate span name from HTTP method and path: `{method} {route}` when the
/// route template is known, `{method} {path}` otherwise.
pub fn span_name(method: &str, path: &str, route: Option<&str>) -> (r: String)
    ensures
        r@ == joined(
            method@,
            match route {
                Some(rt) => rt@,
                None => path@,
            },
        ),
{
    match route {
        Some(r) => join_method(method, r),
        None => join_method(method, path),
    }
}

/// The status of a server span for a response: an error described as
/// `HTTP {code}` for a server error (500 and above), success otherwise.
pub open spec fn spec_server_status(code: u16, s: SpanStatus) -> bool {
    if code >= 500 {
        is_error_status(s, http_error_text(code))
    } else {
        s is Success
    }
}

/// Classify HTTP status code for span status.
pub fn classify_status_code(code: u16) -> (r: SpanStatus)
    ensures
        spec_server_status(code, r),
{
    if code >= 500 {
        SpanStatus::Error(http_error_description(code))
    } else {
        SpanStatus::Success
    }
}

/// The status of a client span for a response: an error described as
/// `HTTP {code}` for any client or server error (400 and above), success otherwise.
pub open spec fn spec_client_status(code: u16, s: SpanStatus) -> bool {
    if code >= 400 {
        is_error_status(s, http_error_text(code))
    } else {
        s is Success
    }
}

/// Classify the status code of a response to an outgoing request.
pub fn classify_client_status_code(code: u16) -> (r: SpanStatus)
    ensures
        spec_client_status(code, r),
{
    if code >= 400 {
        SpanStatus::Error(http_error_description(code))
    } else {
        SpanStatus::Success
    }
}

/// The description a server span records when the inner service fails.
pub fn service_error_status() -> (r: SpanStatus)
    ensures
        is_error_status(r, "Service error"@),
{
    error_status("Service error")
}

/// What a span records when an HTTP exchange is over: the status-code
/// attribute when a response came, and the span's status.
#[derive(Clone, Debug)]
pub struct ExchangeRecord {
    /// The `http.response.status_code` attribute, when a response came
    pub status_code: Option<Attribute>,
    /// The status the span ends with
    pub status: SpanStatus,
}

/// The record carries the status-code attribute of `code`.
pub open spec fn records_code(r: ExchangeRecord, code: u16) -> bool {
    r.status_code matches Some(a) && is_int_attr(a, HTTP_RESPONSE_STATUS_CODE@, code as int)
}

fn response_attribute(code: u16) -> (r: Attribute)
    ensures
        is_int_attr(r, HTTP_RESPONSE_STATUS_CODE@, code as int),
{
    int_attr(HTTP_RESPONSE_STATUS_CODE, code as i64)
}

/// What a server span records when the exchange is over.  A response gives its
/// status-code attribute and the server status of its code (an error `HTTP
/// {code}` from 500 on, success below); a failure of the inner service gives no
/// attribute and an error described by the failure's text.
pub fn server_exchange_record(result: Result<u16, &str>) -> (r: ExchangeRecord)
    ensures
        match result {
            Ok(code) => records_code(r, code) && spec_server_status(code, r.status),
            Err(e) => r.status_code is None && is_error_status(r.status, e@),
        },
{
    match result {
        Ok(code) => ExchangeRecord {
            status_code: Some(response_attribute(code)),
            status: classify_status_code(code),
        },
        Err(e) => ExchangeRecord { status_code: None, status: error_status(e) },
    }
}

/// What a client span records when the exchange is over.  A response gives its
/// status-code attribute and the client status of its code (an error `HTTP
/// {code}` from 400 on, success below); a failed request gives no attribute and
/// an error described by the failure's text.
pub fn client_exchange_record(result: Result<u16, &str>) -> (r: ExchangeRecord)
    ensures
        match result {
            Ok(code) => records_code(r, code) && spec_client_status(code, r.status),
            Err(e) => r.status_code is None && is_error_status(r.status, e@),
        },
{
    match result {
        Ok(code) => ExchangeRecord {
            status_code: Some(response_attribute(code)),
            status: classify_client_status_code(code),
        },
        Err(e) => ExchangeRecord { status_code: None, status: error_status(e) },
    }
}

/// What a server span records when the wrapped service answers with a
/// response of status `code`, or (`None`) fails with an error that carries no
/// text of its own: then no attribute and the error `Service error`.
pub fn service_exchange_record(response_code: Option<u16>) -> (r: ExchangeRecord)
    ensures
        match response_code {
            Some(code) => records_code(r, code) && spec_server_status(code, r.status),
            None => r.status_code is None && is_error_status(r.status, "Service error"@),
        },
{
    match response_code {
        Some(code) => server_exchange_record(Ok(code)),
        None => ExchangeRecord { status_code: None, status: service_error_status() },
    }
}

} // verus!
