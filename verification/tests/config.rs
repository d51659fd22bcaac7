use rust_otel_auto::config::{
    parse_attributes, parse_headers, BatchConfig, DurationValue, EnvValues, OtelConfig, Sampler, RATIO_ONE_BITS,
};
use rust_otel_auto::sdk::resource_attributes;

#[test]
fn test_default_config() {
    let config = OtelConfig::default();
    assert_eq!(config.service_name, "unknown-service");
    assert_eq!(config.endpoint, "http://localhost:4318");
    assert!(matches!(config.sampler, Sampler::ParentBasedAlwaysOn));
}

#[test]
fn test_sampler_parsing() {
    assert!(matches!(
        Sampler::from_str("always_on", None),
        Sampler::AlwaysOn
    ));
    assert!(matches!(
        Sampler::from_str("always_off", None),
        Sampler::AlwaysOff
    ));
    assert!(matches!(
        Sampler::from_str("traceid_ratio", Some(0.5f64.to_bits())),
        Sampler::TraceIdRatio(r) if (f64::from_bits(r) - 0.5).abs() < f64::EPSILON
    ));
}

#[test]
fn test_parse_headers() {
    let headers = parse_headers("Authorization=Bearer+token,X-Custom=value");
    assert_eq!(headers.len(), 2);
    assert_eq!(headers[0], ("Authorization".to_string(), "Bearer token".to_string()));
    assert_eq!(headers[1], ("X-Custom".to_string(), "value".to_string()));
}

#[test]
fn test_builder() {
    let config = OtelConfig::builder()
        .service_name("my-service")
        .endpoint("http://collector:4318")
        .sampler(Sampler::AlwaysOn)
        .build();

    assert_eq!(config.service_name, "my-service");
    assert_eq!(config.endpoint, "http://collector:4318");
    assert!(matches!(config.sampler, Sampler::AlwaysOn));
}

#[test]
fn test_create_resource() {
    let config = OtelConfig::builder()
        .service_name("test-service")
        .service_version("1.0.0")
        .resource_attribute("custom.key", "custom.value")
        .build();

    let resource = resource_attributes(&config);
    assert!(resource.len() > 0);
}

#[test]
fn resource_attributes_list_service_then_custom() {
    let config = OtelConfig::builder()
        .service_name("test-service")
        .service_version("2.0.0")
        .deployment_environment("staging")
        .resource_attribute("custom.key", "custom.value")
        .build();
    let resource = resource_attributes(&config);
    assert_eq!(
        resource,
        vec![
            ("service.name".to_string(), "test-service".to_string()),
            ("service.version".to_string(), "2.0.0".to_string()),
            ("deployment.environment".to_string(), "staging".to_string()),
            ("custom.key".to_string(), "custom.value".to_string()),
        ]
    );
}

#[test]
fn sampler_names_ignore_case_and_default_ratio_is_one() {
    assert_eq!(Sampler::from_str("ALWAYS_ON", None), Sampler::AlwaysOn);
    assert_eq!(Sampler::from_str("ParentBased_Always_Off", None), Sampler::ParentBasedAlwaysOff);
    assert_eq!(
        Sampler::from_str("parentbased_traceid_ratio", None),
        Sampler::ParentBasedTraceIdRatio(RATIO_ONE_BITS)
    );
    assert_eq!(f64::from_bits(RATIO_ONE_BITS), 1.0);
    assert_eq!(Sampler::from_str("traceid_ratio", None), Sampler::TraceIdRatio(RATIO_ONE_BITS));
    assert_eq!(Sampler::from_str("parentbased_always_on", None), Sampler::ParentBasedAlwaysOn);
}

#[test]
fn unknown_sampler_name_gives_default() {
    assert_eq!(Sampler::from_str("sometimes", Some(7)), Sampler::ParentBasedAlwaysOn);
    assert_eq!(Sampler::from_str("", None), Sampler::default());
}

#[test]
fn parse_headers_decodes_and_trims() {
    let headers = parse_headers(" A = x%20y+z ,novalue,B=c=d,=empty");
    assert_eq!(
        headers,
        vec![
            ("A".to_string(), "x y z".to_string()),
            ("B".to_string(), "c=d".to_string()),
            ("".to_string(), "empty".to_string()),
        ]
    );
    assert!(parse_headers("").is_empty());
}

#[test]
fn parse_attributes_keeps_plus_signs() {
    let attrs = parse_attributes("team = a+b , region=eu%20west");
    assert_eq!(
        attrs,
        vec![
            ("team".to_string(), "a+b".to_string()),
            ("region".to_string(), "eu%20west".to_string()),
        ]
    );
}

#[test]
fn batch_config_defaults() {
    let b = BatchConfig::default();
    assert_eq!(b.max_queue_size, 2048);
    assert_eq!(b.max_export_batch_size, 512);
    assert_eq!(b.scheduled_delay, DurationValue::from_millis(5000));
    assert_eq!(b.scheduled_delay, DurationValue { secs: 5, nanos: 0 });
    assert_eq!(b.max_export_timeout, DurationValue::from_secs(30));
}

fn no_env() -> EnvValues {
    EnvValues {
        service_name: None,
        service_version: None,
        deployment_environment: None,
        endpoint: None,
        headers: None,
        sampler: None,
        sampler_arg: None,
        attribute_value_length_limit: None,
        resource_attributes: None,
        console_exporter: None,
    }
}

#[test]
fn env_values_override_defaults() {
    let mut env = no_env();
    env.service_name = Some("svc".to_string());
    env.endpoint = Some("https://otlp.example:443".to_string());
    env.headers = Some("Authorization=Basic+abc".to_string());
    env.sampler = Some("always_off".to_string());
    env.attribute_value_length_limit = Some("+512".to_string());
    env.resource_attributes = Some("k=v".to_string());
    env.console_exporter = Some("1".to_string());
    let config = OtelConfig::from_env_values(env);
    assert_eq!(config.service_name, "svc");
    assert_eq!(config.service_version, "1.0.0");
    assert_eq!(config.deployment_environment, "production");
    assert_eq!(config.endpoint, "https://otlp.example:443");
    assert_eq!(config.headers, vec![("Authorization".to_string(), "Basic abc".to_string())]);
    assert_eq!(config.sampler, Sampler::AlwaysOff);
    assert_eq!(config.attribute_value_length_limit, 512);
    assert_eq!(config.resource_attributes, vec![("k".to_string(), "v".to_string())]);
    assert!(config.console_exporter);
    assert_eq!(config.export_timeout, DurationValue::from_secs(10));
}

#[test]
fn env_values_ignore_bad_limit_and_other_console_text() {
    let mut env = no_env();
    env.attribute_value_length_limit = Some("-3".to_string());
    env.console_exporter = Some("yes".to_string());
    let config = OtelConfig::from_env_values(env);
    assert_eq!(config.attribute_value_length_limit, 256);
    assert!(!config.console_exporter);
    let config = OtelConfig::from_env_values(no_env());
    assert_eq!(config.sampler, Sampler::ParentBasedAlwaysOn);
    assert!(config.headers.is_empty());
}

#[test]
fn builder_appends_headers_in_order() {
    let config = OtelConfig::builder()
        .header("a", "1")
        .header("b", "2")
        .attribute_value_length_limit(64)
        .export_timeout(DurationValue::from_millis(2500))
        .console_exporter(true)
        .build();
    assert_eq!(
        config.headers,
        vec![("a".to_string(), "1".to_string()), ("b".to_string(), "2".to_string())]
    );
    assert_eq!(config.attribute_value_length_limit, 64);
    assert_eq!(config.export_timeout, DurationValue { secs: 2, nanos: 500_000_000 });
    assert!(config.console_exporter);
    assert_eq!(config.service_name, "unknown-service");
}

#[test]
fn durations_keep_sub_millisecond_parts() {
    let d = DurationValue::new(1, 2_500_000_001);
    assert_eq!(d, DurationValue { secs: 3, nanos: 500_000_001 });
    let c = OtelConfig::builder().export_timeout(DurationValue::new(0, 1_500)).build();
    assert_eq!(c.export_timeout.nanos, 1_500);
    assert_eq!(DurationValue::from_millis(1_001), DurationValue { secs: 1, nanos: 1_000_000 });
}

#[test]
fn sampler_names_read_like_their_lower_case() {
    for s in ["TraceId_Ratio", "ALWAYS_OFF", "ParentBased_Always_On", "Bogus"] {
        assert_eq!(Sampler::from_str(s, None), Sampler::from_str(&s.to_lowercase(), None));
    }
    assert_eq!(Sampler::from_str("TraceId_Ratio", None), Sampler::TraceIdRatio(RATIO_ONE_BITS));
    assert_eq!(Sampler::from_str("bogus", Some(0.3f64.to_bits())), Sampler::ParentBasedAlwaysOn);
}
