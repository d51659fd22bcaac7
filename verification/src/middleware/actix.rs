//! Actix-web middleware: configuration and the server span of a request.
use vstd::prelude::*;

use crate::middleware::common::span_name;
use crate::span::{
    is_str_attr, joined, str_attr, starts_now_in_current, SpanBuilder, SpanKind, CLIENT_ADDRESS,
    HTTP_REQUEST_METHOD, HTTP_ROUTE, SERVER_ADDRESS, URL_PATH, URL_SCHEME, USER_AGENT_ORIGINAL,
};

verus! {

/// The tracer name used when none is configured.
pub const DEFAULT_TRACER_NAME: &'static str = "rust-otel-auto";

/// OpenTelemetry middleware for Actix-web.
#[derive(Clone, Copy, Debug, Default)]
pub struct OtelMiddleware {
    /// The tracer name, when not the default
    pub tracer_name: Option<&'static str>,
}

/// The actual middleware service: the wrapped service and the tracer it reports to.
pub struct OtelMiddlewareService<S> {
    /// The wrapped service
    pub service: std::rc::Rc<S>,
    /// The tracer name
    pub tracer_name: &'static str,
}

impl OtelMiddleware {
    /// Create a new middleware instance.
    pub fn new() -> (r: Self)
        ensures
            r.tracer_name is None,
    {
        OtelMiddleware { tracer_name: None }
    }

    /// Set a custom tracer name.
    pub fn tracer_name(self, name: &'static str) -> (r: Self)
        ensures
            r.tracer_name == Some(name),
    {
        OtelMiddleware { tracer_name: Some(name) }
    }

    /// Wrap a service: the middleware reports to the configured tracer, or to
    /// `rust-otel-auto` when none is configured.
    pub fn new_transform<S>(&self, service: S) -> (r: OtelMiddlewareService<S>)
        ensures
            *r.service == service,
            r.tracer_name == match self.tracer_name {
                Some(n) => n,
                None => DEFAULT_TRACER_NAME,
            },
    {
        let tracer_name = match self.tracer_name {
            Some(n) => n,
            None => DEFAULT_TRACER_NAME,
        };
        OtelMiddlewareService { service: std::rc::Rc::new(service), tracer_name }
    }
}

/// The number of attributes a request span carries: four, plus one for each
/// optional value that is present.
pub open spec fn request_attribute_count(
    peer_addr: Option<&str>,
    user_agent: Option<&str>,
    route: Option<&str>,
) -> int {
    4 + (if peer_addr is Some {
        1int
    } else {
        0int
    }) + (if user_agent is Some {
        1int
    } else {
        0int
    }) + (if route is Some {
        1int
    } else {
        0int
    })
}

/// The server span of a request: named by method and route template (or path),
/// with the method, path, scheme and host attributes, then the client address,
/// user agent and route, each when known, in that order.
pub fn request_span(
    method: &str,
    path: &str,
    scheme: &str,
    host: &str,
    peer_addr: Option<&str>,
    user_agent: Option<&str>,
    route: Option<&str>,
) -> (r: SpanBuilder)
    ensures
        r.name@ == joined(
            method@,
            match route {
                Some(rt) => rt@,
                None => path@,
            },
        ),
        r.kind == SpanKind::Server,
        r.attributes@.len() == request_attribute_count(peer_addr, user_agent, route),
        is_str_attr(r.attributes@[0], HTTP_REQUEST_METHOD@, method@),
        is_str_attr(r.attributes@[1], URL_PATH@, path@),
        is_str_attr(r.attributes@[2], URL_SCHEME@, scheme@),
        is_str_attr(r.attributes@[3], SERVER_ADDRESS@, host@),
        peer_addr matches Some(p) ==> is_str_attr(r.attributes@[4], CLIENT_ADDRESS@, p@),
        user_agent matches Some(ua) ==> is_str_attr(
            r.attributes@[if peer_addr is Some {
                5int
            } else {
                4int
            }],
            USER_AGENT_ORIGINAL@,
            ua@,
        ),
        route matches Some(rt) ==> is_str_attr(
            r.attributes@[request_attribute_count(peer_addr, user_agent, route) - 1],
            HTTP_ROUTE@,
            rt@,
        ),
        starts_now_in_current(r),
{
    let name = span_name(method, path, route);
    let mut attributes = Vec::new();
    attributes.push(str_attr(HTTP_REQUEST_METHOD, method));
    attributes.push(str_attr(URL_PATH, path));
    attributes.push(str_attr(URL_SCHEME, scheme));
    attributes.push(str_attr(SERVER_ADDRESS, host));
    if let Some(p) = peer_addr {
        attributes.push(str_attr(CLIENT_ADDRESS, p));
    }
    if let Some(ua) = user_agent {
        attributes.push(str_attr(USER_AGENT_ORIGINAL, ua));
    }
    if let Some(rt) = route {
        attributes.push(str_attr(HTTP_ROUTE, rt));
    }
    SpanBuilder::server(name.as_str()).attributes(attributes)
}

} // verus!
