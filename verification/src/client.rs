//! Outgoing HTTP requests: the client span that each request records.
use vstd::prelude::*;

use crate::span::{
    is_int_attr, is_str_attr, join_method, joined, int_attr, str_attr, starts_now_in_current,
    SpanBuilder, SpanKind, HTTP_REQUEST_METHOD, SERVER_ADDRESS, SERVER_PORT, URL_FULL,
};
use crate::text::owned;

verus! {

/// The host that `reqwest::Url::parse` finds in a URL: none when the text does
/// not parse as a URL or the URL has no host.
pub uninterp spec fn spec_url_host(url: Seq<char>) -> Option<Seq<char>>;

/// The explicit port that `reqwest::Url::parse` finds in a URL: none when the
/// text does not parse, has no port, or names the scheme's default port.
pub uninterp spec fn spec_url_port(url: Seq<char>) -> Option<u16>;

/// `reqwest::Url::parse(url)` followed by `host_str()`.  The result is named by
/// `spec_url_host`; nothing of URL syntax is stated.
#[verifier::external_body]
fn url_host(url: &str) -> (r: Option<String>)
    ensures
        match (r, spec_url_host(url@)) {
            (Some(h), Some(g)) => h@ == g,
            (None, None) => true,
            _ => false,
        },
{
    match reqwest::Url::parse(url) {
        Ok(u) => match u.host_str() {
            Some(h) => Some(h.to_string()),
            None => None,
        },
        Err(_) => None,
    }
}

/// `reqwest::Url::parse(url)` followed by `port()`.  The result is named by
/// `spec_url_port`; nothing of URL syntax is stated.
#[verifier::external_body]
fn url_port(url: &str) -> (r: Option<u16>)
    ensures
        r == spec_url_port(url@),
{
    match reqwest::Url::parse(url) {
        Ok(u) => u.port(),
        Err(_) => None,
    }
}

/// The number of attributes a client span carries: three, and one more for a port.
pub open spec fn client_attribute_count(port: Option<u16>) -> int {
    if port is Some {
        4
    } else {
        3
    }
}

/// The client span of an outgoing request, given the URL's host and port: named
/// `{method} {host}` (host `unknown` when there is none), with the method, full
/// URL, server address and, when known, server port attributes.
pub fn client_span_for(method: &str, url: &str, host: Option<&str>, port: Option<u16>) -> (r:
    SpanBuilder)
    ensures
        r.name@ == joined(
            method@,
            match host {
                Some(h) => h@,
                None => "unknown"@,
            },
        ),
        r.kind == SpanKind::Client,
        r.attributes@.len() == client_attribute_count(port),
        is_str_attr(r.attributes@[0], HTTP_REQUEST_METHOD@, method@),
        is_str_attr(r.attributes@[1], URL_FULL@, url@),
        is_str_attr(
            r.attributes@[2],
            SERVER_ADDRESS@,
            match host {
                Some(h) => h@,
                None => "unknown"@,
            },
        ),
        port matches Some(p) ==> is_int_attr(r.attributes@[3], SERVER_PORT@, p as int),
        starts_now_in_current(r),
{
    let host_text = match host {
        Some(h) => h,
        None => "unknown",
    };
    let span_name = join_method(method, host_text);
    let mut attributes = Vec::new();
    attributes.push(str_attr(HTTP_REQUEST_METHOD, method));
    attributes.push(str_attr(URL_FULL, url));
    attributes.push(str_attr(SERVER_ADDRESS, host_text));
    if let Some(p) = port {
        attributes.push(int_attr(SERVER_PORT, p as i64));
    }
    SpanBuilder::client(span_name.as_str()).attributes(attributes)
}

/// The client span of an outgoing request: the URL is parsed for its host and port.
pub fn client_span(method: &str, url: &str) -> (r: SpanBuilder)
    ensures
        r.name@ == joined(
            method@,
            match spec_url_host(url@) {
                Some(h) => h,
                None => "unknown"@,
            },
        ),
        r.kind == SpanKind::Client,
        r.attributes@.len() == client_attribute_count(spec_url_port(url@)),
        is_str_attr(r.attributes@[0], HTTP_REQUEST_METHOD@, method@),
        is_str_attr(r.attributes@[1], URL_FULL@, url@),
        is_str_attr(
            r.attributes@[2],
            SERVER_ADDRESS@,
            match spec_url_host(url@) {
                Some(h) => h,
                None => "unknown"@,
            },
        ),
        spec_url_port(url@) matches Some(p) ==> is_int_attr(
            r.attributes@[3],
            SERVER_PORT@,
            p as int,
        ),
        starts_now_in_current(r),
{
    let host = url_host(url);
    let port = url_port(url);
    match host {
        Some(h) => client_span_for(method, url, Some(h.as_str()), port),
        None => client_span_for(method, url, None, port),
    }
}

/// The fields of a `tracing` client span for an outgoing request.
#[derive(Clone, Debug)]
pub struct ClientSpanFields {
    /// `otel.name`: `{method} {peer}`
    pub otel_name: String,
    /// `http.method`
    pub method: String,
    /// `http.url`
    pub url: String,
    /// `net.peer.name`: the URL's host, empty when there is none
    pub peer: String,
}

/// The fields of the `tracing` client span, given the URL's host.
pub fn client_span_fields_for(method: &str, url: &str, host: Option<&str>) -> (r: ClientSpanFields)
    ensures
        r.peer@ == match host {
            Some(h) => h@,
            None => Seq::<char>::empty(),
        },
        r.otel_name@ == joined(method@, r.peer@),
        r.method@ == method@,
        r.url@ == url@,
{
    let peer = match host {
        Some(h) => owned(h),
        None => String::new(),
    };
    ClientSpanFields {
        otel_name: join_method(method, peer.as_str()),
        method: owned(method),
        url: owned(url),
        peer,
    }
}

/// The fields of the `tracing` client span: the URL is parsed for its host.
pub fn client_span_fields(method: &str, url: &str) -> (r: ClientSpanFields)
    ensures
        r.peer@ == match spec_url_host(url@) {
            Some(h) => h,
            None => Seq::<char>::empty(),
        },
        r.otel_name@ == joined(method@, r.peer@),
        r.method@ == method@,
        r.url@ == url@,
{
    match url_host(url) {
        Some(h) => client_span_fields_for(method, url, Some(h.as_str())),
        None => client_span_fields_for(method, url, None),
    }
}

} // verus!
