//! GraphQL instrumentation: configuration, and the spans and events recorded
//! for parsing, executing and resolving an operation.
use vstd::prelude::*;

use crate::span::{
    error_status, int_attr, is_error_status, is_int_attr, is_str_attr, str_attr,
    starts_now_in_current, Attribute, AttributeValue, SpanBuilder, SpanEvent, SpanKind, SpanStatus,
    GRAPHQL_DOCUMENT, GRAPHQL_OPERATION_NAME, GRAPHQL_OPERATION_TYPE,
};
use crate::text::{chars_of, char_len_utf8, owned, push_char, string_of, utf8_len};

verus! {

/// Configuration for GraphQL tracing.
#[derive(Clone, Copy, Debug)]
pub struct GraphQLTracingConfig {
    /// Whether to trace individual field resolvers
    pub trace_resolvers: bool,
    /// Whether to record the full query document
    pub record_document: bool,
    /// Maximum length for document recording, in bytes
    pub max_document_length: usize,
    /// Whether to record error details
    pub record_errors: bool,
    /// Custom tracer name
    pub tracer_name: &'static str,
}

/// The default GraphQL tracing configuration.
pub open spec fn is_default_graphql_config(c: GraphQLTracingConfig) -> bool {
    &&& c.trace_resolvers
    &&& c.record_document
    &&& c.max_document_length == 1024
    &&& c.record_errors
    &&& c.tracer_name@ == "rust-otel-auto-graphql"@
}

impl Default for GraphQLTracingConfig {
    fn default() -> (r: Self)
        ensures
            is_default_graphql_config(r),
    {
        GraphQLTracingConfig {
            trace_resolvers: true,
            record_document: true,
            max_document_length: 1024,
            record_errors: true,
            tracer_name: "rust-otel-auto-graphql",
        }
    }
}

/// GraphQL tracing extension factory.
#[derive(Clone, Copy, Debug)]
pub struct GraphQLTracingExtension {
    /// The tracing configuration
    pub config: GraphQLTracingConfig,
}

impl Default for GraphQLTracingExtension {
    fn default() -> (r: Self)
        ensures
            is_default_graphql_config(r.config),
    {
        GraphQLTracingExtension { config: GraphQLTracingConfig::default() }
    }
}

impl GraphQLTracingExtension {
    /// Create a new extension with default configuration.
    pub fn new() -> (r: Self)
        ensures
            is_default_graphql_config(r.config),
    {
        Self::default()
    }

    /// Create a new extension with custom configuration.
    pub fn with_config(config: GraphQLTracingConfig) -> (r: Self)
        ensures
            r.config == config,
    {
        GraphQLTracingExtension { config }
    }

    /// Enable or disable resolver tracing.
    pub fn trace_resolvers(self, enabled: bool) -> (r: Self)
        ensures
            r.config == (GraphQLTracingConfig { trace_resolvers: enabled, ..self.config }),
    {
        let mut e = self;
        e.config.trace_resolvers = enabled;
        e
    }

    /// Enable or disable document recording.
    pub fn record_document(self, enabled: bool) -> (r: Self)
        ensures
            r.config == (GraphQLTracingConfig { record_document: enabled, ..self.config }),
    {
        let mut e = self;
        e.config.record_document = enabled;
        e
    }

    /// Set maximum document length for recording.
    pub fn max_document_length(self, length: usize) -> (r: Self)
        ensures
            r.config == (GraphQLTracingConfig { max_document_length: length, ..self.config }),
    {
        let mut e = self;
        e.config.max_document_length = length;
        e
    }
}

// ---------------------------------------------------------------------------
// Document truncation
// ---------------------------------------------------------------------------

/// Some prefix of `s` takes exactly `n` bytes: `n` falls on a character boundary.
pub open spec fn is_byte_boundary(s: Seq<char>, n: nat) -> bool {
    exists|k: int| 0 <= k <= s.len() && utf8_len(s.take(k)) == n
}

/// The three dots appended to a cut document.
pub open spec fn ellipsis() -> Seq<char> {
    seq!['.', '.', '.']
}

/// A document as recorded: unchanged when it takes at most `max` bytes,
/// otherwise its first `max` bytes followed by `...`.
pub open spec fn truncated_document(doc: Seq<char>, max: nat) -> Seq<char> {
    if utf8_len(doc) > max {
        doc.take(choose|k: int| 0 <= k <= doc.len() && utf8_len(doc.take(k)) == max) + ellipsis()
    } else {
        doc
    }
}

/// A recorded document is the document itself when it fits, and otherwise a
/// prefix of it followed by `...`, taking exactly `max + 3` bytes.
pub proof fn lemma_truncated_document_size(doc: Seq<char>, max: nat)
    requires
        utf8_len(doc) > max ==> is_byte_boundary(doc, max),
    ensures
        utf8_len(doc) <= max ==> truncated_document(doc, max) == doc,
        utf8_len(doc) > max ==> utf8_len(truncated_document(doc, max)) == max + 3,
        utf8_len(doc) > max ==> truncated_document(doc, max).take(
            truncated_document(doc, max).len() - 3,
        ).is_prefix_of(doc),
{
    if utf8_len(doc) > max {
        let k = choose|k: int| 0 <= k <= doc.len() && utf8_len(doc.take(k)) == max;
        let t = truncated_document(doc, max);
        crate::text::lemma_utf8_len_concat(doc.take(k), ellipsis());
        crate::text::lemma_utf8_len_ascii(ellipsis());
        assert(t.take(t.len() - 3) =~= doc.take(k));
    }
}

/// Longer prefixes take more bytes.
proof fn lemma_utf8_len_take_strict(s: Seq<char>, a: int, b: int)
    requires
        0 <= a < b <= s.len(),
    ensures
        utf8_len(s.take(a)) < utf8_len(s.take(b)),
    decreases b - a,
{
    assert(s.take(b).drop_last() =~= s.take(b - 1));
    if a < b - 1 {
        lemma_utf8_len_take_strict(s, a, b - 1);
    }
}

/// Whether a character sequence takes more than `max` bytes.
fn utf8_len_exceeds(cs: &Vec<char>, max: usize) -> (r: bool)
    ensures
        r == (utf8_len(cs@) > max),
{
    let mut total: usize = 0;
    let mut i: usize = 0;
    assert(cs@.take(0) =~= Seq::<char>::empty());
    while i < cs.len()
        invariant
            i <= cs@.len(),
            total <= max,
            total == utf8_len(cs@.take(i as int)),
        decreases cs@.len() - i,
    {
        assert(cs@.take(i + 1).drop_last() =~= cs@.take(i as int));
        let w = char_len_utf8(cs[i]);
        if w > max - total {
            proof {
                crate::text::lemma_utf8_len_prefix_le(cs@, i + 1);
            }
            return true;
        }
        total = total + w;
        i = i + 1;
    }
    assert(cs@.take(i as int) =~= cs@);
    false
}

/// Cuts a document to `max` bytes and marks the cut with `...`.  The cut must
/// fall on a character boundary.
pub fn truncate_document(doc: &str, max: usize) -> (r: String)
    requires
        utf8_len(doc@) > max ==> is_byte_boundary(doc@, max as nat),
    ensures
        r@ == truncated_document(doc@, max as nat),
{
    let cs = chars_of(doc);
    if !utf8_len_exceeds(&cs, max) {
        return owned(doc);
    }
    let ghost k0 = choose|k: int| 0 <= k <= doc@.len() && utf8_len(doc@.take(k)) == max;
    assert(utf8_len(cs@) > max);
    assert(0 <= k0 <= cs@.len() && utf8_len(cs@.take(k0)) == max);
    let mut total: usize = 0;
    let mut i: usize = 0;
    assert(cs@.take(0) =~= Seq::<char>::empty());
    while i < cs.len() && total < max
        invariant
            i <= cs@.len(),
            cs@ == doc@,
            total <= max,
            total == utf8_len(cs@.take(i as int)),
            utf8_len(cs@) > max,
            0 <= k0 <= cs@.len() && utf8_len(cs@.take(k0)) == max,
        decreases cs@.len() - i,
    {
        assert(cs@.take(i + 1).drop_last() =~= cs@.take(i as int));
        let w = char_len_utf8(cs[i]);
        if w > max - total {
            proof {
                if k0 < i {
                    lemma_utf8_len_take_strict(cs@, k0, i as int);
                } else if k0 > i + 1 {
                    lemma_utf8_len_take_strict(cs@, i + 1, k0);
                }
                assert(false);
            }
            return owned(doc);
        }
        total = total + w;
        i = i + 1;
    }
    assert(total == max) by {
        if i == cs.len() {
            assert(cs@.take(i as int) =~= cs@);
        }
    }
    assert(k0 == i) by {
        if k0 < i {
            lemma_utf8_len_take_strict(cs@, k0, i as int);
        } else if k0 > i {
            lemma_utf8_len_take_strict(cs@, i as int, k0);
        }
    }
    let mut prefix: Vec<char> = Vec::new();
    let mut m: usize = 0;
    while m < i
        invariant
            m <= i <= cs@.len(),
            prefix@ == cs@.take(m as int),
        decreases i - m,
    {
        prefix.push(cs[m]);
        assert(cs@.take(m + 1) =~= cs@.take(m as int).push(cs@[m as int]));
        m = m + 1;
    }
    let mut out = string_of(&prefix);
    push_char(&mut out, '.');
    push_char(&mut out, '.');
    push_char(&mut out, '.');
    assert(out@ =~= cs@.take(i as int) + ellipsis());
    out
}

// ---------------------------------------------------------------------------
// Spans and events
// ---------------------------------------------------------------------------

/// The document a configuration allows to be recorded: none when recording is
/// off, otherwise the document cut to the configured length.
pub open spec fn recorded_document(config: GraphQLTracingConfig, query: Seq<char>) -> Option<
    Seq<char>,
> {
    if config.record_document {
        Some(truncated_document(query, config.max_document_length as nat))
    } else {
        None
    }
}

/// The document can be cut where the configuration says.
pub open spec fn document_cuttable(config: GraphQLTracingConfig, query: Seq<char>) -> bool {
    config.record_document && utf8_len(query) > config.max_document_length ==> is_byte_boundary(
        query,
        config.max_document_length as nat,
    )
}

/// The document is recorded exactly when recording is on: with recording off
/// nothing is recorded, whatever the query and the length limit; with it on the
/// query is recorded whole when it fits the limit, and otherwise as a prefix of
/// it followed by `...`, taking the limit plus three bytes.
pub proof fn lemma_recorded_document(config: GraphQLTracingConfig, query: Seq<char>)
    requires
        document_cuttable(config, query),
    ensures
        !config.record_document ==> recorded_document(config, query) is None,
        config.record_document <==> recorded_document(config, query) is Some,
        config.record_document && utf8_len(query) <= config.max_document_length
            ==> recorded_document(config, query) == Some(query),
        config.record_document && utf8_len(query) > config.max_document_length ==> (
        recorded_document(config, query) matches Some(d) && utf8_len(d)
            == config.max_document_length + 3 && d.take(d.len() - 3).is_prefix_of(query)),
{
    if config.record_document {
        lemma_truncated_document_size(query, config.max_document_length as nat);
    }
}

/// The span opened while a query is parsed: `graphql.parse`, internal, with the
/// recorded document when there is one.
pub fn parse_span(config: &GraphQLTracingConfig, query: &str) -> (r: SpanBuilder)
    requires
        document_cuttable(*config, query@),
    ensures
        r.name@ == "graphql.parse"@,
        r.kind == SpanKind::Internal,
        match recorded_document(*config, query@) {
            Some(d) => r.attributes@.len() == 1 && is_str_attr(
                r.attributes@[0],
                GRAPHQL_DOCUMENT@,
                d,
            ),
            None => r.attributes@.len() == 0,
        },
        starts_now_in_current(r),
{
    let builder = SpanBuilder::new("graphql.parse");
    if config.record_document {
        let doc = truncate_document(query, config.max_document_length);
        builder.attribute(GRAPHQL_DOCUMENT, AttributeValue::Str(doc))
    } else {
        builder
    }
}

/// `e` is the event `name` with the single string attribute `error.message = m`.
pub open spec fn is_message_event(e: SpanEvent, name: Seq<char>, m: Seq<char>) -> bool {
    &&& e.name@ == name
    &&& e.attributes@.len() == 1
    &&& is_str_attr(e.attributes@[0], "error.message"@, m)
}

/// The events recorded when parsing fails: one `graphql.parse_error` event per
/// error, carrying its message, in order.
pub fn parse_error_events(messages: &Vec<String>) -> (r: Vec<SpanEvent>)
    ensures
        r@.len() == messages@.len(),
        forall|i: int|
            0 <= i < r@.len() ==> is_message_event(
                #[trigger] r@[i],
                "graphql.parse_error"@,
                messages@[i]@,
            ),
{
    let mut out: Vec<SpanEvent> = Vec::new();
    let mut i: usize = 0;
    while i < messages.len()
        invariant
            i <= messages@.len(),
            out@.len() == i,
            forall|k: int|
                0 <= k < i ==> is_message_event(
                    #[trigger] out@[k],
                    "graphql.parse_error"@,
                    messages@[k]@,
                ),
        decreases messages@.len() - i,
    {
        let mut attributes = Vec::new();
        attributes.push(str_attr("error.message", messages[i].as_str()));
        out.push(SpanEvent { name: owned("graphql.parse_error"), attributes });
        i = i + 1;
    }
    out
}

/// The status a failed parse ends with.
pub fn parse_error_status() -> (r: SpanStatus)
    ensures
        is_error_status(r, "Parse error"@),
{
    error_status("Parse error")
}

/// `graphql.{type} {name}`, or `graphql.{type}` without a name.
pub open spec fn operation_span_name(operation_type: Seq<char>, operation_name: Option<Seq<char>>) -> Seq<
    char,
> {
    let base = "graphql."@ + operation_type;
    match operation_name {
        Some(n) => base + seq![' '] + n,
        None => base,
    }
}

/// `Some(s@)` for a present string slice.
pub open spec fn opt_str(o: Option<&str>) -> Option<Seq<char>> {
    match o {
        Some(s) => Some(s@),
        None => None,
    }
}

fn operation_name_text(operation_type: &str, operation_name: Option<&str>) -> (r: String)
    ensures
        r@ == operation_span_name(operation_type@, opt_str(operation_name)),
{
    let mut out = owned("graphql.");
    out.append(operation_type);
    if let Some(name) = operation_name {
        push_char(&mut out, ' ');
        out.append(name);
    }
    assert(out@ =~= operation_span_name(operation_type@, opt_str(operation_name)));
    out
}

/// The span of an executed operation: a server span named
/// `graphql.operation {name}` (or `graphql.operation`), with the operation
/// type `operation` and, when named, the operation name.
pub fn execute_span(operation_name: Option<&str>) -> (r: SpanBuilder)
    ensures
        r.name@ == operation_span_name("operation"@, opt_str(operation_name)),
        r.kind == SpanKind::Server,
        r.attributes@.len() == if operation_name is Some {
            2int
        } else {
            1int
        },
        is_str_attr(r.attributes@[0], GRAPHQL_OPERATION_TYPE@, "operation"@),
        operation_name matches Some(n) ==> is_str_attr(
            r.attributes@[1],
            GRAPHQL_OPERATION_NAME@,
            n@,
        ),
        starts_now_in_current(r),
{
    let name = operation_name_text("operation", operation_name);
    let mut attributes = Vec::new();
    attributes.push(str_attr(GRAPHQL_OPERATION_TYPE, "operation"));
    if let Some(n) = operation_name {
        attributes.push(str_attr(GRAPHQL_OPERATION_NAME, n));
    }
    SpanBuilder::server(name.as_str()).attributes(attributes)
}

/// What an executed operation's span records once the response is known.
#[derive(Clone, Debug)]
pub struct ExecuteOutcome {
    /// The status the span ends with
    pub status: SpanStatus,
    /// The `graphql.error_count` attribute, when errors are recorded
    pub error_count: Option<Attribute>,
    /// One `graphql.error` event per error, when errors are recorded
    pub events: Vec<SpanEvent>,
}

/// `e` is the `graphql.error` event for the error at `index` with message `m`.
pub open spec fn is_indexed_error_event(e: SpanEvent, index: int, m: Seq<char>) -> bool {
    &&& e.name@ == "graphql.error"@
    &&& e.attributes@.len() == 2
    &&& is_int_attr(e.attributes@[0], "error.index"@, index)
    &&& is_str_attr(e.attributes@[1], "error.message"@, m)
}

/// The outcome of an executed operation with the given error messages: when
/// errors are recorded and there are some, an error status `GraphQL errors`,
/// the error count and one indexed event per error; otherwise success.
pub fn execute_outcome(config: &GraphQLTracingConfig, error_messages: &Vec<String>) -> (r:
    ExecuteOutcome)
    requires
        error_messages@.len() <= i64::MAX,
    ensures
        config.record_errors && error_messages@.len() > 0 ==> {
            &&& is_error_status(r.status, "GraphQL errors"@)
            &&& r.error_count matches Some(a) && is_int_attr(
                a,
                "graphql.error_count"@,
                error_messages@.len() as int,
            )
            &&& r.events@.len() == error_messages@.len()
            &&& forall|i: int|
                0 <= i < r.events@.len() ==> is_indexed_error_event(
                    #[trigger] r.events@[i],
                    i,
                    error_messages@[i]@,
                )
        },
        !(config.record_errors && error_messages@.len() > 0) ==> {
            &&& r.status is Success
            &&& r.error_count is None
            &&& r.events@.len() == 0
        },
{
    if config.record_errors && error_messages.len() > 0 {
        let mut events: Vec<SpanEvent> = Vec::new();
        let mut i: usize = 0;
        while i < error_messages.len()
            invariant
                i <= error_messages@.len(),
                error_messages@.len() <= i64::MAX,
                events@.len() == i,
                forall|k: int|
                    0 <= k < i ==> is_indexed_error_event(
                        #[trigger] events@[k],
                        k,
                        error_messages@[k]@,
                    ),
            decreases error_messages@.len() - i,
        {
            let mut attributes = Vec::new();
            attributes.push(int_attr("error.index", i as i64));
            attributes.push(str_attr("error.message", error_messages[i].as_str()));
            events.push(SpanEvent { name: owned("graphql.error"), attributes });
            i = i + 1;
        }
        ExecuteOutcome {
            status: error_status("GraphQL errors"),
            error_count: Some(int_attr("graphql.error_count", error_messages.len() as i64)),
            events,
        }
    } else {
        ExecuteOutcome { status: SpanStatus::Success, error_count: None, events: Vec::new() }
    }
}

/// The span of a field resolver: internal, named `graphql.resolve {path}`, with
/// the field name, field type and parent type attributes.
pub fn resolve_span(path_node: &str, return_type: &str, parent_type: &str) -> (r: SpanBuilder)
    ensures
        r.name@ == "graphql.resolve "@ + path_node@,
        r.kind == SpanKind::Internal,
        r.attributes@.len() == 3,
        is_str_attr(r.attributes@[0], "graphql.field.name"@, path_node@),
        is_str_attr(r.attributes@[1], "graphql.field.type"@, return_type@),
        is_str_attr(r.attributes@[2], "graphql.parent_type"@, parent_type@),
        starts_now_in_current(r),
{
    let mut name = owned("graphql.resolve ");
    name.append(path_node);
    let mut attributes = Vec::new();
    attributes.push(str_attr("graphql.field.name", path_node));
    attributes.push(str_attr("graphql.field.type", return_type));
    attributes.push(str_attr("graphql.parent_type", parent_type));
    SpanBuilder::new(name.as_str()).attributes(attributes)
}

/// The length to which a manually created operation span cuts its document.
pub const MANUAL_DOCUMENT_LIMIT: usize = 1024;

/// The number of attributes a manually created operation span carries.
pub open spec fn manual_attribute_count(operation_name: Option<&str>, document: Option<&str>) -> int {
    1 + (if operation_name is Some {
        1int
    } else {
        0int
    }) + (if document is Some {
        1int
    } else {
        0int
    })
}

/// Create a GraphQL operation span manually: a server span named
/// `graphql.{type} {name}` (or `graphql.{type}`), with the type, then the name
/// and the document cut to 1024 bytes, each when given.
pub fn create_graphql_span(
    operation_name: Option<&str>,
    operation_type: &str,
    document: Option<&str>,
) -> (r: SpanBuilder)
    requires
        document matches Some(d) ==> (utf8_len(d@) > 1024 ==> is_byte_boundary(d@, 1024)),
    ensures
        r.name@ == operation_span_name(operation_type@, opt_str(operation_name)),
        r.kind == SpanKind::Server,
        r.attributes@.len() == manual_attribute_count(operation_name, document),
        is_str_attr(r.attributes@[0], GRAPHQL_OPERATION_TYPE@, operation_type@),
        operation_name matches Some(n) ==> is_str_attr(
            r.attributes@[1],
            GRAPHQL_OPERATION_NAME@,
            n@,
        ),
        document matches Some(d) ==> is_str_attr(
            r.attributes@[manual_attribute_count(operation_name, document) - 1],
            GRAPHQL_DOCUMENT@,
            truncated_document(d@, 1024),
        ),
        starts_now_in_current(r),
{
    let name = operation_name_text(operation_type, operation_name);
    let mut attributes = Vec::new();
    attributes.push(str_attr(GRAPHQL_OPERATION_TYPE, operation_type));
    if let Some(n) = operation_name {
        attributes.push(str_attr(GRAPHQL_OPERATION_NAME, n));
    }
    if let Some(doc) = document {
        let truncated = truncate_document(doc, MANUAL_DOCUMENT_LIMIT);
        attributes.push(str_attr(GRAPHQL_DOCUMENT, truncated.as_str()));
    }
    SpanBuilder::server(name.as_str()).attributes(attributes)
}

/// What recording an error on the current span adds: a `graphql.error` event
/// with the message and path (empty when none), and an error status.
#[derive(Clone, Debug)]
pub struct GraphQLErrorRecord {
    /// The event
    pub event: SpanEvent,
    /// The status
    pub status: SpanStatus,
}

/// Record a GraphQL error on the current span: the event and status to record.
pub fn record_graphql_error(message: &str, path: Option<&str>) -> (r: GraphQLErrorRecord)
    ensures
        r.event.name@ == "graphql.error"@,
        r.event.attributes@.len() == 2,
        is_str_attr(r.event.attributes@[0], "error.message"@, message@),
        is_str_attr(
            r.event.attributes@[1],
            "error.path"@,
            match path {
                Some(p) => p@,
                None => ""@,
            },
        ),
        is_error_status(r.status, message@),
{
    let path_text = match path {
        Some(p) => p,
        None => "",
    };
    let mut attributes = Vec::new();
    attributes.push(str_attr("error.message", message));
    attributes.push(str_attr("error.path", path_text));
    GraphQLErrorRecord {
        event: SpanEvent { name: owned("graphql.error"), attributes },
        status: error_status(message),
    }
}

} // verus!
