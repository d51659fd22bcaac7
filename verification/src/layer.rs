//! HTTP server instrumentation in the `tracing` style: the fields of the server
//! span that a request opens, and the name it gets once its route is matched.
use vstd::prelude::*;

use crate::span::{join_method, joined};
use crate::text::owned;

verus! {

/// A layer that instruments every request with an HTTP server span.
#[derive(Clone, Copy, Debug, Default)]
pub struct OtelLayer;

impl OtelLayer {
    /// Create the layer.
    pub fn new() -> (r: Self) {
        OtelLayer
    }
}

/// Creates the HTTP server span of a request.
#[derive(Clone, Copy, Debug)]
pub struct OtelMakeSpan;

/// Records the status code when the response is ready.
#[derive(Clone, Copy, Debug)]
pub struct OtelOnResponse;

/// The HTTP protocol version of a request.
#[derive(Clone, Copy, Debug, PartialEq, Eq, Structural)]
pub enum HttpVersion {
    /// HTTP/0.9
    Http09,
    /// HTTP/1.0
    Http10,
    /// HTTP/1.1
    Http11,
    /// HTTP/2
    Http2,
    /// HTTP/3
    Http3,
}

/// The `http.flavor` of a version: `1.0`, `1.1`, `2.0` or `3.0`; HTTP/0.9 counts as `1.1`.
pub open spec fn spec_flavor(v: HttpVersion) -> Seq<char> {
    match v {
        HttpVersion::Http10 => "1.0"@,
        HttpVersion::Http11 => "1.1"@,
        HttpVersion::Http2 => "2.0"@,
        HttpVersion::Http3 => "3.0"@,
        HttpVersion::Http09 => "1.1"@,
    }
}

/// The major and minor numbers of an HTTP version (HTTP/0.9 aside).
pub open spec fn version_numbers(v: HttpVersion) -> (nat, nat) {
    match v {
        HttpVersion::Http10 => (1, 0),
        HttpVersion::Http11 => (1, 1),
        HttpVersion::Http2 => (2, 0),
        HttpVersion::Http3 => (3, 0),
        HttpVersion::Http09 => (0, 9),
    }
}

/// The digit character of a number below ten.
pub open spec fn digit_of(n: nat) -> char {
    ('0' as u32 + n) as char
}

/// The flavor of HTTP/1.0, 1.1, 2 and 3 is the version written `major.minor`,
/// so that distinct versions get distinct flavors; HTTP/0.9 is reported as 1.1.
pub proof fn lemma_flavor_names_version(v: HttpVersion, w: HttpVersion)
    ensures
        v != HttpVersion::Http09 ==> spec_flavor(v) == seq![
            digit_of(version_numbers(v).0),
            '.',
            digit_of(version_numbers(v).1),
        ],
        v != HttpVersion::Http09 && w != HttpVersion::Http09 && v != w ==> spec_flavor(v)
            != spec_flavor(w),
        spec_flavor(HttpVersion::Http09) == spec_flavor(HttpVersion::Http11),
{
    reveal_strlit("1.0");
    reveal_strlit("1.1");
    reveal_strlit("2.0");
    reveal_strlit("3.0");
    assert(digit_of(0) == '0' && digit_of(1) == '1' && digit_of(2) == '2' && digit_of(3) == '3');
    if v != HttpVersion::Http09 {
        assert(spec_flavor(v) =~= seq![
            digit_of(version_numbers(v).0),
            '.',
            digit_of(version_numbers(v).1),
        ]);
    }
    if v != HttpVersion::Http09 && w != HttpVersion::Http09 && v != w {
        assert(spec_flavor(v)[0] != spec_flavor(w)[0] || spec_flavor(v)[2] != spec_flavor(w)[2]);
    }
}

/// The `http.flavor` value of a protocol version.
pub fn http_flavor(v: HttpVersion) -> (r: &'static str)
    ensures
        r@ == spec_flavor(v),
{
    match v {
        HttpVersion::Http10 => "1.0",
        HttpVersion::Http11 => "1.1",
        HttpVersion::Http2 => "2.0",
        HttpVersion::Http3 => "3.0",
        HttpVersion::Http09 => "1.1",
    }
}

/// The fields of a request's server span.
#[derive(Clone, Debug)]
pub struct ServerSpanFields {
    /// `http.method`
    pub method: String,
    /// `http.target`: path and query
    pub target: String,
    /// `http.flavor`
    pub flavor: &'static str,
    /// `http.scheme`
    pub scheme: String,
    /// `http.host`
    pub host: String,
}

impl OtelMakeSpan {
    /// The fields of the server span for a request.  The target is the path and
    /// query, or the path alone; the scheme defaults to `http`; the host is the
    /// `Host` header, else the URI's host, else `localhost`.
    pub fn span_fields(
        &self,
        method: &str,
        path_and_query: Option<&str>,
        path: &str,
        version: HttpVersion,
        scheme: Option<&str>,
        host_header: Option<&str>,
        uri_host: Option<&str>,
    ) -> (r: ServerSpanFields)
        ensures
            r.method@ == method@,
            r.target@ == match path_and_query {
                Some(p) => p@,
                None => path@,
            },
            r.flavor@ == spec_flavor(version),
            r.scheme@ == match scheme {
                Some(s) => s@,
                None => "http"@,
            },
            r.host@ == match (host_header, uri_host) {
                (Some(h), _) => h@,
                (None, Some(h)) => h@,
                (None, None) => "localhost"@,
            },
    {
        let target = match path_and_query {
            Some(p) => p,
            None => path,
        };
        let scheme_text = match scheme {
            Some(s) => s,
            None => "http",
        };
        let host = match host_header {
            Some(h) => h,
            None => match uri_host {
                Some(h) => h,
                None => "localhost",
            },
        };
        ServerSpanFields {
            method: owned(method),
            target: owned(target),
            flavor: http_flavor(version),
            scheme: owned(scheme_text),
            host: owned(host),
        }
    }
}

/// The span name recorded once the route template is matched: `{METHOD} {route}`.
pub fn matched_route_name(method: &str, route: &str) -> (r: String)
    ensures
        r@ == joined(method@, route@),
{
    join_method(method, route)
}

} // verus!
