//! Span descriptions: name, kind, attributes and status, built as plain values
//! and handed to the tracer to start.
use vstd::prelude::*;

use crate::text::{owned, push_char};

verus! {

/// Attribute name for the HTTP request method.
pub const HTTP_REQUEST_METHOD: &'static str = "http.request.method";

/// Attribute name for the matched route template.
pub const HTTP_ROUTE: &'static str = "http.route";

/// Attribute name for the HTTP response status code.
pub const HTTP_RESPONSE_STATUS_CODE: &'static str = "http.response.status_code";

/// Attribute name for the full request URL.
pub const URL_FULL: &'static str = "url.full";

/// Attribute name for the request path.
pub const URL_PATH: &'static str = "url.path";

/// Attribute name for the request scheme.
pub const URL_SCHEME: &'static str = "url.scheme";

/// Attribute name for the server host.
pub const SERVER_ADDRESS: &'static str = "server.address";

/// Attribute name for the server port.
pub const SERVER_PORT: &'static str = "server.port";

/// Attribute name for the client address.
pub const CLIENT_ADDRESS: &'static str = "client.address";

/// Attribute name for the user agent.
pub const USER_AGENT_ORIGINAL: &'static str = "user_agent.original";

/// Attribute name for the GraphQL operation type.
pub const GRAPHQL_OPERATION_TYPE: &'static str = "graphql.operation.type";

/// Attribute name for the GraphQL operation name.
pub const GRAPHQL_OPERATION_NAME: &'static str = "graphql.operation.name";

/// Attribute name for the GraphQL document.
pub const GRAPHQL_DOCUMENT: &'static str = "graphql.document";

/// The kind of a span.
#[derive(Clone, Copy, Debug, PartialEq, Eq, Structural)]
pub enum SpanKind {
    /// An internal operation
    Internal,
    /// The server side of a request
    Server,
    /// The client side of a request
    Client,
    /// The sender of a message
    Producer,
    /// The receiver of a message
    Consumer,
}

/// The value of a span attribute.
#[derive(Clone, Debug)]
pub enum AttributeValue {
    /// A string value
    Str(String),
    /// An integer value
    Int(i64),
}

/// A span attribute: a name and a value.
#[derive(Clone, Debug)]
pub struct Attribute {
    /// The attribute name
    pub key: String,
    /// The attribute value
    pub value: AttributeValue,
}

/// `a` is the string attribute `k = v`.
pub open spec fn is_str_attr(a: Attribute, k: Seq<char>, v: Seq<char>) -> bool {
    &&& a.key@ == k
    &&& a.value matches AttributeValue::Str(s) && s@ == v
}

/// `a` is the integer attribute `k = v`.
pub open spec fn is_int_attr(a: Attribute, k: Seq<char>, v: int) -> bool {
    &&& a.key@ == k
    &&& a.value matches AttributeValue::Int(n) && n == v
}

/// A string attribute.
pub fn str_attr(key: &str, value: &str) -> (r: Attribute)
    ensures
        is_str_attr(r, key@, value@),
{
    Attribute { key: owned(key), value: AttributeValue::Str(owned(value)) }
}

/// An integer attribute.
pub fn int_attr(key: &str, value: i64) -> (r: Attribute)
    ensures
        is_int_attr(r, key@, value as int),
{
    Attribute { key: owned(key), value: AttributeValue::Int(value) }
}

/// The status a span ends with.
#[derive(Clone, Debug)]
pub enum SpanStatus {
    /// No status recorded
    Unset,
    /// The operation succeeded (OpenTelemetry's `Status::Ok`)
    Success,
    /// The operation failed, with a description
    Error(String),
}

/// `s` is an error status with the given description.
pub open spec fn is_error_status(s: SpanStatus, description: Seq<char>) -> bool {
    s matches SpanStatus::Error(d) && d@ == description
}

/// An error status with the given description.
pub fn error_status(description: &str) -> (r: SpanStatus)
    ensures
        is_error_status(r, description@),
{
    SpanStatus::Error(owned(description))
}

/// An event recorded on a span: a name and attributes.
#[derive(Clone, Debug)]
pub struct SpanEvent {
    /// The event name
    pub name: String,
    /// The event attributes
    pub attributes: Vec<Attribute>,
}

// ---------------------------------------------------------------------------
// Span builder
// ---------------------------------------------------------------------------

#[verifier::external_type_specification]
#[verifier::external_body]
pub struct ExContext(opentelemetry::Context);

#[verifier::external_type_specification]
#[verifier::external_body]
pub struct ExSystemTime(std::time::SystemTime);

/// Builder for a span: everything the tracer needs to start it.
pub struct SpanBuilder {
    /// The span name
    pub name: String,
    /// The span kind
    pub kind: SpanKind,
    /// The attributes, in the order they were added
    pub attributes: Vec<Attribute>,
    /// The start time, when not "now"
    pub start_time: Option<std::time::SystemTime>,
    /// The parent context, when not the current one
    pub parent: Option<opentelemetry::Context>,
}

impl SpanBuilder {
    /// Create a new span builder with the given name: an internal span with no
    /// attributes, starting now under the current context.
    pub fn new(name: &str) -> (r: Self)
        ensures
            r.name@ == name@,
            r.kind == SpanKind::Internal,
            r.attributes@.len() == 0,
            r.start_time is None,
            r.parent is None,
    {
        SpanBuilder {
            name: owned(name),
            kind: SpanKind::Internal,
            attributes: Vec::new(),
            start_time: None,
            parent: None,
        }
    }

    /// Create a new server span builder.
    pub fn server(name: &str) -> (r: Self)
        ensures
            r.name@ == name@,
            r.kind == SpanKind::Server,
            r.attributes@.len() == 0,
            r.start_time is None,
            r.parent is None,
    {
        Self::new(name).kind(SpanKind::Server)
    }

    /// Create a new client span builder.
    pub fn client(name: &str) -> (r: Self)
        ensures
            r.name@ == name@,
            r.kind == SpanKind::Client,
            r.attributes@.len() == 0,
            r.start_time is None,
            r.parent is None,
    {
        Self::new(name).kind(SpanKind::Client)
    }

    /// Create a new producer span builder.
    pub fn producer(name: &str) -> (r: Self)
        ensures
            r.name@ == name@,
            r.kind == SpanKind::Producer,
            r.attributes@.len() == 0,
            r.start_time is None,
            r.parent is None,
    {
        Self::new(name).kind(SpanKind::Producer)
    }

    /// Create a new consumer span builder.
    pub fn consumer(name: &str) -> (r: Self)
        ensures
            r.name@ == name@,
            r.kind == SpanKind::Consumer,
            r.attributes@.len() == 0,
            r.start_time is None,
            r.parent is None,
    {
        Self::new(name).kind(SpanKind::Consumer)
    }

    /// Set the span kind.
    pub fn kind(self, kind: SpanKind) -> (r: Self)
        ensures
            r.kind == kind,
            r.name == self.name,
            r.attributes == self.attributes,
            r.start_time == self.start_time,
            r.parent == self.parent,
    {
        let mut b = self;
        b.kind = kind;
        b
    }

    /// Add an attribute to the span.
    pub fn attribute(self, key: &str, value: AttributeValue) -> (r: Self)
        ensures
            r.attributes@.len() == self.attributes@.len() + 1,
            r.attributes@.take(self.attributes@.len() as int) == self.attributes@,
            r.attributes@.last().key@ == key@,
            r.attributes@.last().value == value,
            r.name == self.name,
            r.kind == self.kind,
            r.start_time == self.start_time,
            r.parent == self.parent,
    {
        let mut b = self;
        b.attributes.push(Attribute { key: owned(key), value });
        assert(b.attributes@.take(self.attributes@.len() as int) =~= self.attributes@);
        b
    }

    /// Add multiple attributes to the span, after those already added.
    pub fn attributes(self, attrs: Vec<Attribute>) -> (r: Self)
        ensures
            r.attributes@ == self.attributes@ + attrs@,
            r.name == self.name,
            r.kind == self.kind,
            r.start_time == self.start_time,
            r.parent == self.parent,
    {
        let mut b = self;
        let mut more = attrs;
        b.attributes.append(&mut more);
        b
    }

    /// Set the start time of the span.
    pub fn start_time(self, time: std::time::SystemTime) -> (r: Self)
        ensures
            r.start_time == Some(time),
            r.name == self.name,
            r.kind == self.kind,
            r.attributes == self.attributes,
            r.parent == self.parent,
    {
        let mut b = self;
        b.start_time = Some(time);
        b
    }

    /// Set the parent context for the span.
    pub fn parent(self, parent: opentelemetry::Context) -> (r: Self)
        ensures
            r.parent == Some(parent),
            r.name == self.name,
            r.kind == self.kind,
            r.attributes == self.attributes,
            r.start_time == self.start_time,
    {
        let mut b = self;
        b.parent = Some(parent);
        b
    }
}

/// `b` describes a span started now under the current context.
pub open spec fn starts_now_in_current(b: SpanBuilder) -> bool {
    b.start_time is None && b.parent is None
}

/// The builder of an HTTP server span for a request: named `{method} {route}`, or
/// `{method} {path}` when no route is known, with the method and path attributes.
pub fn http_server_span(method: &str, path: &str, route: Option<&str>) -> (r: SpanBuilder)
    ensures
        r.name@ == joined(
            method@,
            match route {
                Some(rt) => rt@,
                None => path@,
            },
        ),
        r.kind == SpanKind::Server,
        r.attributes@.len() == 2,
        is_str_attr(r.attributes@[0], HTTP_REQUEST_METHOD@, method@),
        is_str_attr(r.attributes@[1], URL_PATH@, path@),
        starts_now_in_current(r),
{
    let span_name = match route {
        Some(rt) => join_method(method, rt),
        None => join_method(method, path),
    };
    SpanBuilder::server(span_name.as_str()).attribute(
        HTTP_REQUEST_METHOD,
        AttributeValue::Str(owned(method)),
    ).attribute(URL_PATH, AttributeValue::Str(owned(path)))
}

/// The builder of an HTTP client span for an outgoing request: named by the
/// method, with the method and full URL attributes.
pub fn http_client_span(method: &str, url: &str) -> (r: SpanBuilder)
    ensures
        r.name@ == method@,
        r.kind == SpanKind::Client,
        r.attributes@.len() == 2,
        is_str_attr(r.attributes@[0], HTTP_REQUEST_METHOD@, method@),
        is_str_attr(r.attributes@[1], URL_FULL@, url@),
        starts_now_in_current(r),
{
    SpanBuilder::client(method).attribute(
        HTTP_REQUEST_METHOD,
        AttributeValue::Str(owned(method)),
    ).attribute(URL_FULL, AttributeValue::Str(owned(url)))
}

/// `graphql {type} {name}`, or `graphql {type}` without a name.
pub open spec fn graphql_span_name(operation_name: Option<Seq<char>>, operation_type: Seq<char>) -> Seq<char> {
    let base = seq!['g', 'r', 'a', 'p', 'h', 'q', 'l', ' '] + operation_type;
    match operation_name {
        Some(n) => base + seq![' '] + n,
        None => base,
    }
}

/// The builder of a GraphQL operation span: a server span named by the
/// operation type and name, with the type attribute and, when named, the name attribute.
pub fn graphql_span(operation_name: Option<&str>, operation_type: &str) -> (r: SpanBuilder)
    ensures
        r.name@ == graphql_span_name(
            match operation_name {
                Some(n) => Some(n@),
                None => None,
            },
            operation_type@,
        ),
        r.kind == SpanKind::Server,
        r.attributes@.len() == if operation_name is Some {
            2int
        } else {
            1int
        },
        is_str_attr(r.attributes@[0], GRAPHQL_OPERATION_TYPE@, operation_type@),
        operation_name matches Some(n) ==> is_str_attr(
            r.attributes@[1],
            GRAPHQL_OPERATION_NAME@,
            n@,
        ),
        starts_now_in_current(r),
{
    let mut span_name = String::new();
    push_char(&mut span_name, 'g');
    push_char(&mut span_name, 'r');
    push_char(&mut span_name, 'a');
    push_char(&mut span_name, 'p');
    push_char(&mut span_name, 'h');
    push_char(&mut span_name, 'q');
    push_char(&mut span_name, 'l');
    push_char(&mut span_name, ' ');
    span_name.append(operation_type);
    if let Some(name) = operation_name {
        push_char(&mut span_name, ' ');
        span_name.append(name);
    }
    assert(span_name@ =~= graphql_span_name(
        match operation_name {
            Some(n) => Some(n@),
            None => None,
        },
        operation_type@,
    ));
    let mut builder = SpanBuilder::server(span_name.as_str()).attribute(
        GRAPHQL_OPERATION_TYPE,
        AttributeValue::Str(owned(operation_type)),
    );
    if let Some(name) = operation_name {
        builder = builder.attribute(GRAPHQL_OPERATION_NAME, AttributeValue::Str(owned(name)));
    }
    builder
}

// ---------------------------------------------------------------------------
// Decimal text
// ---------------------------------------------------------------------------

/// The decimal digit for `d < 10`.
pub open spec fn decimal_char(d: nat) -> char {
    seq!['0', '1', '2', '3', '4', '5', '6', '7', '8', '9'][d as int]
}

/// `n` in decimal, without leading zeros (`0` for zero).
pub open spec fn decimal_text(n: nat) -> Seq<char>
    decreases n,
{
    if n < 10 {
        seq![decimal_char(n)]
    } else {
        decimal_text(n / 10).push(decimal_char(n % 10))
    }
}

fn decimal_digit(d: u64) -> (r: char)
    requires
        d < 10,
    ensures
        r == decimal_char(d as nat),
{
    let digits: [char; 10] = ['0', '1', '2', '3', '4', '5', '6', '7', '8', '9'];
    assert(digits@ =~= seq!['0', '1', '2', '3', '4', '5', '6', '7', '8', '9']);
    digits[d as usize]
}

/// A number in decimal, without leading zeros (as `to_string` writes it).
pub(crate) fn u64_to_decimal(n: u64) -> (r: String)
    ensures
        r@ == decimal_text(n as nat),
    decreases n,
{
    if n < 10 {
        let mut out = String::new();
        push_char(&mut out, decimal_digit(n));
        assert(out@ =~= decimal_text(n as nat));
        out
    } else {
        let mut out = u64_to_decimal(n / 10);
        push_char(&mut out, decimal_digit(n % 10));
        out
    }
}

/// `HTTP {code}`: the description of a failed HTTP exchange.
pub open spec fn http_error_text(code: u16) -> Seq<char> {
    seq!['H', 'T', 'T', 'P', ' '] + decimal_text(code as nat)
}

/// The text `HTTP {code}`.
pub fn http_error_description(code: u16) -> (r: String)
    ensures
        r@ == http_error_text(code),
{
    let mut out = String::new();
    push_char(&mut out, 'H');
    push_char(&mut out, 'T');
    push_char(&mut out, 'T');
    push_char(&mut out, 'P');
    push_char(&mut out, ' ');
    let digits = u64_to_decimal(code as u64);
    out.append(digits.as_str());
    assert(out@ =~= http_error_text(code));
    out
}

/// `method target`: a method and a route, path or host joined by one space.
pub open spec fn joined(method: Seq<char>, target: Seq<char>) -> Seq<char> {
    method + seq![' '] + target
}

/// Joins a method and a target with one space.
pub fn join_method(method: &str, target: &str) -> (r: String)
    ensures
        r@ == joined(method@, target@),
{
    let mut out = owned(method);
    push_char(&mut out, ' ');
    out.append(target);
    assert(out@ =~= joined(method@, target@));
    out
}

} // verus!
