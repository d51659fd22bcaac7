use rust_otel_auto::db::{db_span, sqlite_span, DbName, DB_SPAN_KIND, DB_SPAN_NAME};
use rust_otel_auto::error::OtelError;
use rust_otel_auto::graphql::{
    create_graphql_span, execute_outcome, execute_span, parse_error_events, parse_span,
    record_graphql_error, resolve_span, truncate_document, GraphQLTracingConfig,
    GraphQLTracingExtension,
};
use rust_otel_auto::instrument::{
    keyword, recorded_arguments, returned_status, span_name, ArgKeyword, AttrError, AttrToken,
    InstrumentArg, InstrumentArgs,
};
use rust_otel_auto::sdk::{is_initialized, parse_exporter_headers, traces_endpoint, InitState, TelemetrySettings};
use rust_otel_auto::span::{AttributeValue, SpanStatus};

#[test]
fn db_span_fields() {
    let s = sqlite_span("SELECT", "SELECT id FROM users", "users");
    assert_eq!(s.system, "sqlite");
    assert_eq!(s.table.as_deref(), Some("users"));
    assert!(matches!(&s.db_name, DbName::Value(v) if v == ":memory:"));
    let d = db_span("postgresql", "SELECT", "SELECT 1");
    assert_eq!(d.system, "postgresql");
    assert_eq!(d.operation, "SELECT");
    assert_eq!(d.statement, "SELECT 1");
    assert!(d.table.is_none());
    assert!(matches!(d.db_name, DbName::Empty));
    assert_eq!((DB_SPAN_NAME, DB_SPAN_KIND), ("db.query", "client"));
}

#[test]
fn error_messages() {
    assert_eq!(OtelError::ExporterCreation("x".into()).message(), "Failed to create OTLP exporter: x");
    assert_eq!(OtelError::TracerProviderCreation("x".into()).message(), "Failed to create tracer provider: x");
    assert_eq!(OtelError::SdkInitialization("x".into()).message(), "Failed to initialize OpenTelemetry SDK: x");
    assert_eq!(OtelError::Configuration("x".into()).message(), "Configuration error: x");
    assert_eq!(OtelError::ContextPropagation("x".into()).message(), "Context propagation error: x");
    assert_eq!(OtelError::SpanCreation("x".into()).message(), "Failed to create span: x");
    assert_eq!(OtelError::Export("x".into()).message(), "Failed to export telemetry data: x");
    assert_eq!(OtelError::AlreadyInitialized.message(), "OpenTelemetry SDK already initialized");
    assert_eq!(OtelError::NotInitialized.message(), "OpenTelemetry SDK not initialized");
    assert_eq!(OtelError::InvalidTraceContext("x".into()).message(), "Invalid trace context: x");
    let io = std::io::Error::new(std::io::ErrorKind::Other, "disk");
    let e: OtelError = io.into();
    assert_eq!(e.message(), "IO error: disk");
}

#[test]
fn init_state_allows_one_initialization() {
    let mut st = InitState::new();
    assert!(!is_initialized(&st));
    assert!(st.check_not_initialized().is_ok());
    st.mark_initialized();
    assert!(is_initialized(&st));
    assert!(matches!(st.check_not_initialized(), Err(OtelError::AlreadyInitialized)));
}

#[test]
fn traces_endpoint_appends_path_once() {
    assert_eq!(traces_endpoint("http://localhost:4318"), "http://localhost:4318/v1/traces");
    assert_eq!(traces_endpoint("https://otlp.last9.io:443//"), "https://otlp.last9.io:443/v1/traces");
    assert_eq!(traces_endpoint("http://c/v1/traces"), "http://c/v1/traces");
    assert_eq!(traces_endpoint(""), "/v1/traces");
}

#[test]
fn exporter_headers_skip_empty_keys() {
    let h = parse_exporter_headers("Authorization=Basic xyz, X-Tenant = abc , =v,junk");
    assert_eq!(
        h,
        vec![
            ("Authorization".to_string(), "Basic xyz".to_string()),
            ("X-Tenant".to_string(), "abc".to_string()),
        ]
    );
    assert!(parse_exporter_headers("").is_empty());
}

#[test]
fn telemetry_settings_defaults() {
    let s = TelemetrySettings::from_env_values(None, None, None, None, None);
    assert_eq!(s.traces_endpoint, "http://localhost:4318/v1/traces");
    assert_eq!(s.service_name, "service");
    assert_eq!(s.service_version, "0.1.0");
    assert_eq!(s.deployment_environment, "production");
    assert!(s.headers.is_empty());
    let s = TelemetrySettings::from_env_values(Some("https://o/"), Some("svc"), None, Some("dev"), Some("a=b"));
    assert_eq!(s.traces_endpoint, "https://o/v1/traces");
    assert_eq!(s.service_name, "svc");
    assert_eq!(s.deployment_environment, "dev");
    assert_eq!(s.headers, vec![("a".to_string(), "b".to_string())]);
}

#[test]
fn graphql_extension_builders() {
    let e = GraphQLTracingExtension::new();
    assert!(e.config.trace_resolvers && e.config.record_document && e.config.record_errors);
    assert_eq!(e.config.max_document_length, 1024);
    assert_eq!(e.config.tracer_name, "rust-otel-auto-graphql");
    let e = e.trace_resolvers(false).record_document(false).max_document_length(7);
    assert!(!e.config.trace_resolvers && !e.config.record_document);
    assert_eq!(e.config.max_document_length, 7);
    let c = GraphQLTracingConfig { record_errors: false, ..GraphQLTracingConfig::default() };
    assert!(!GraphQLTracingExtension::with_config(c).config.record_errors);
}

#[test]
fn document_truncation() {
    assert_eq!(truncate_document("abcdef", 3), "abc...");
    assert_eq!(truncate_document("abc", 3), "abc");
    assert_eq!(truncate_document("héllo", 3), "hé...");
    assert_eq!(truncate_document("", 0), "");
    assert_eq!(truncate_document("x", 0), "...");
}

#[test]
fn graphql_spans_and_events() {
    let config = GraphQLTracingConfig { max_document_length: 4, ..GraphQLTracingConfig::default() };
    let p = parse_span(&config, "{ users }");
    assert_eq!(p.name, "graphql.parse");
    match &p.attributes[0].value {
        AttributeValue::Str(s) => assert_eq!(s, "{ us..."),
        _ => panic!("expected a string"),
    }
    let ev = parse_error_events(&vec!["bad".to_string()]);
    assert_eq!(ev[0].name, "graphql.parse_error");
    let x = execute_span(Some("Q"));
    assert_eq!(x.name, "graphql.operation Q");
    assert_eq!(execute_span(None).name, "graphql.operation");
    let o = execute_outcome(&config, &vec!["e1".to_string(), "e2".to_string()]);
    assert!(matches!(o.status, SpanStatus::Error(ref d) if d == "GraphQL errors"));
    assert_eq!(o.events.len(), 2);
    assert!(matches!(o.error_count.unwrap().value, AttributeValue::Int(2)));
    let o = execute_outcome(&config, &vec![]);
    assert!(matches!(o.status, SpanStatus::Success));
    let r = resolve_span("users", "[User!]!", "Query");
    assert_eq!(r.name, "graphql.resolve users");
    assert_eq!(r.attributes.len(), 3);
    let c = create_graphql_span(Some("Op"), "query", Some("query { a }"));
    assert_eq!(c.name, "graphql.query Op");
    assert_eq!(c.attributes.len(), 3);
    let rec = record_graphql_error("boom", None);
    assert_eq!(rec.event.name, "graphql.error");
    assert!(matches!(&rec.event.attributes[1].value, AttributeValue::Str(s) if s.is_empty()));
    assert!(matches!(rec.status, SpanStatus::Error(ref d) if d == "boom"));
}

#[test]
fn instrument_arguments_combine() {
    let args = vec![
        InstrumentArg::Name("a".to_string()),
        InstrumentArg::Skip(vec!["password".to_string()]),
        InstrumentArg::Name("b".to_string()),
        InstrumentArg::Skip(vec!["token".to_string()]),
        InstrumentArg::RecordErr,
    ];
    let combined = InstrumentArgs::from_args(&args);
    assert_eq!(combined.name.as_deref(), Some("b"));
    assert_eq!(combined.skip, vec!["password".to_string(), "token".to_string()]);
    assert!(!combined.skip_all);
    assert!(combined.err);
    assert!(matches!(keyword("level"), Ok(ArgKeyword::Level)));
    assert!(matches!(keyword("skip_all"), Ok(ArgKeyword::SkipAll)));
    assert_eq!(keyword("bogus").unwrap_err(), "unknown attribute: bogus");
}

#[test]
fn instrument_recorded_arguments() {
    let params: Vec<String> =
        vec!["self".into(), "username".into(), "password".into(), "(a, b)".into()];
    let skip = vec!["password".to_string()];
    assert_eq!(
        recorded_arguments(&params, &skip, false),
        vec!["self".to_string(), "username".to_string(), "(a, b)".to_string()]
    );
    let one = vec!["Point { x, y }".to_string()];
    assert_eq!(recorded_arguments(&one, &Vec::new(), false), one);
    assert!(recorded_arguments(&params, &skip, true).is_empty());
    assert_eq!(span_name("login", None), "login");
    assert_eq!(span_name("login", Some("user_login")), "user_login");
}

fn id(s: &str) -> AttrToken {
    AttrToken::Ident(s.to_string())
}

fn p(c: char) -> AttrToken {
    AttrToken::Punct(c)
}

#[test]
fn instrument_attribute_parses_all_arguments() {
    // name = "user_login", skip(password, token,), err, level = "info",
    let tokens = vec![
        id("name"), p('='), AttrToken::StrLit("user_login".into()), p(','),
        id("skip"), AttrToken::Paren(vec![id("password"), p(','), id("token"), p(',')]), p(','),
        id("err"), p(','),
        id("level"), p('='), AttrToken::StrLit("info".into()), p(','),
    ];
    let args = InstrumentArgs::parse(&tokens).unwrap();
    assert_eq!(args.name.as_deref(), Some("user_login"));
    assert_eq!(args.skip, vec!["password".to_string(), "token".to_string()]);
    assert!(!args.skip_all);
    assert!(args.err);
    let empty = InstrumentArgs::parse(&Vec::new()).unwrap();
    assert!(empty.name.is_none() && empty.skip.is_empty() && !empty.skip_all && !empty.err);
    let all = InstrumentArgs::parse(&vec![id("skip_all")]).unwrap();
    assert!(all.skip_all);
    let neg = InstrumentArgs::parse(&vec![id("level"), p('='), p('-'), AttrToken::NumLit("1".into())]).unwrap();
    // `level` is accepted for compatibility and turns nothing on.
    assert!(!neg.err && !neg.skip_all && neg.name.is_none() && neg.skip.is_empty());
    let level_info = InstrumentArgs::parse(&vec![id("level"), p('='), AttrToken::StrLit("info".into())]).unwrap();
    assert!(!level_info.err);
}

#[test]
fn instrument_attribute_errors() {
    let unknown = InstrumentArgs::parse(&vec![id("bogus")]).unwrap_err();
    assert!(matches!(&unknown, AttrError::UnknownAttribute(i) if i == "bogus"));
    assert_eq!(unknown.message().as_deref(), Some("unknown attribute: bogus"));
    let number = InstrumentArgs::parse(&vec![id("name"), p('='), AttrToken::NumLit("3".into())]).unwrap_err();
    assert!(matches!(number, AttrError::ExpectedStringLiteral));
    assert_eq!(number.message().as_deref(), Some("expected string literal"));
    let boolean = InstrumentArgs::parse(&vec![id("name"), p('='), id("true")]).unwrap_err();
    assert!(matches!(boolean, AttrError::ExpectedStringLiteral));
    let not_literal = InstrumentArgs::parse(&vec![id("name"), p('='), id("x")]).unwrap_err();
    assert!(matches!(not_literal, AttrError::Malformed));
    assert!(not_literal.message().is_none());
    let no_eq = InstrumentArgs::parse(&vec![id("name"), AttrToken::StrLit("x".into())]).unwrap_err();
    assert!(matches!(no_eq, AttrError::Malformed));
    let keyword_in_skip = InstrumentArgs::parse(&vec![id("skip"), AttrToken::Paren(vec![id("self")])]).unwrap_err();
    assert!(matches!(keyword_in_skip, AttrError::Malformed));
    let no_parens = InstrumentArgs::parse(&vec![id("skip"), id("a")]).unwrap_err();
    assert!(matches!(no_parens, AttrError::Malformed));
    let double_comma = InstrumentArgs::parse(&vec![id("err"), p(','), p(',')]).unwrap_err();
    assert!(matches!(double_comma, AttrError::Malformed));
    let missing_comma = InstrumentArgs::parse(&vec![id("err"), id("skip_all")]).unwrap_err();
    assert!(matches!(missing_comma, AttrError::Malformed));
    // The first error met is the one reported.
    let first = InstrumentArgs::parse(&vec![id("nope"), p(','), id("name"), p('='), AttrToken::NumLit("1".into())]).unwrap_err();
    assert!(matches!(&first, AttrError::UnknownAttribute(i) if i == "nope"));
    let one = InstrumentArg::parse(&vec![id("skip_all"), p(',')], 0).unwrap();
    assert!(matches!(one, (InstrumentArg::SkipAll, 1)));
}

#[test]
fn instrument_err_records_error_status() {
    assert!(matches!(returned_status(true, Some("denied")), Some(SpanStatus::Error(ref d)) if d == "denied"));
    assert!(returned_status(false, Some("denied")).is_none());
    assert!(returned_status(true, None).is_none());
}
