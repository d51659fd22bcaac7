//! Axum middleware: configuration and the server span of a request.
use vstd::prelude::*;

use crate::span::{
    is_str_attr, joined, str_attr, starts_now_in_current, SpanBuilder, SpanKind, HTTP_REQUEST_METHOD,
    SERVER_ADDRESS, URL_PATH, URL_SCHEME, USER_AGENT_ORIGINAL,
};
use crate::text::owned;

verus! {

/// The tracer name used when none is configured.
pub const DEFAULT_TRACER_NAME: &'static str = "rust-otel-auto";

/// OpenTelemetry layer for Axum.
#[derive(Clone, Copy, Debug, Default)]
pub struct OtelLayer {
    /// The tracer name, when not the default
    pub tracer_name: Option<&'static str>,
}

/// The middleware service: the wrapped service and the tracer it reports to.
#[derive(Clone, Debug)]
pub struct OtelMiddleware<S> {
    /// The wrapped service
    pub inner: S,
    /// The tracer name
    pub tracer_name: &'static str,
}

impl OtelLayer {
    /// Create a new layer instance.
    pub fn new() -> (r: Self)
        ensures
            r.tracer_name is None,
    {
        OtelLayer { tracer_name: None }
    }

    /// Set a custom tracer name.
    pub fn tracer_name(self, name: &'static str) -> (r: Self)
        ensures
            r.tracer_name == Some(name),
    {
        OtelLayer { tracer_name: Some(name) }
    }

    /// Wrap a service: the middleware reports to the configured tracer, or to
    /// `rust-otel-auto` when none is configured.
    pub fn layer<S>(&self, inner: S) -> (r: OtelMiddleware<S>)
        ensures
            r.inner == inner,
            r.tracer_name == match self.tracer_name {
                Some(n) => n,
                None => DEFAULT_TRACER_NAME,
            },
    {
        let tracer_name = match self.tracer_name {
            Some(n) => n,
            None => DEFAULT_TRACER_NAME,
        };
        OtelMiddleware { inner, tracer_name }
    }
}

/// `o` when present, `d` otherwise.
pub open spec fn str_or(o: Option<&str>, d: Seq<char>) -> Seq<char> {
    match o {
        Some(s) => s@,
        None => d,
    }
}

/// The server span of a request: named `{method} {path}`, with the method, path,
/// scheme (`http` when the URI has none), host (`unknown` when the URI has
/// none) and, when sent, user-agent attributes.
pub fn request_span(
    method: &str,
    path: &str,
    scheme: Option<&str>,
    host: Option<&str>,
    user_agent: Option<&str>,
) -> (r: SpanBuilder)
    ensures
        r.name@ == joined(method@, path@),
        r.kind == SpanKind::Server,
        r.attributes@.len() == if user_agent is Some {
            5int
        } else {
            4int
        },
        is_str_attr(r.attributes@[0], HTTP_REQUEST_METHOD@, method@),
        is_str_attr(r.attributes@[1], URL_PATH@, path@),
        is_str_attr(r.attributes@[2], URL_SCHEME@, str_or(scheme, "http"@)),
        is_str_attr(r.attributes@[3], SERVER_ADDRESS@, str_or(host, "unknown"@)),
        user_agent matches Some(ua) ==> is_str_attr(r.attributes@[4], USER_AGENT_ORIGINAL@, ua@),
        starts_now_in_current(r),
{
    let span_name = crate::span::join_method(method, path);
    let scheme_text = match scheme {
        Some(s) => s,
        None => "http",
    };
    let host_text = match host {
        Some(h) => h,
        None => "unknown",
    };
    let mut attributes = Vec::new();
    attributes.push(str_attr(HTTP_REQUEST_METHOD, method));
    attributes.push(str_attr(URL_PATH, path));
    attributes.push(str_attr(URL_SCHEME, scheme_text));
    attributes.push(str_attr(SERVER_ADDRESS, host_text));
    if let Some(ua) = user_agent {
        attributes.push(str_attr(USER_AGENT_ORIGINAL, ua));
    }
    SpanBuilder::server(span_name.as_str()).attributes(attributes)
}

} // verus!
