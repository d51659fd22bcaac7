//! SDK set-up decisions: where spans are exported to, with which headers and
//! resource attributes, and whether the SDK may still be initialized.
use vstd::prelude::*;

use crate::config::{spec_parse_pairs, string_pairs, OtelConfig, parse_attributes};
use crate::error::OtelError;
use crate::text::{
    chars_of, ends_with, ends_with_spec, owned, string_of, trim_end_char,
    trim_end_char_spec,
};

verus! {

/// The path that OTLP/HTTP trace export posts to.
pub const TRACES_PATH: &'static str = "/v1/traces";

/// The trace export URL for an endpoint: the endpoint itself when it already ends
/// with `/v1/traces`, otherwise the endpoint without trailing `/` followed by `/v1/traces`.
pub open spec fn spec_traces_endpoint(endpoint: Seq<char>) -> Seq<char> {
    if ends_with_spec(endpoint, TRACES_PATH@) {
        endpoint
    } else {
        trim_end_char_spec(endpoint, '/') + TRACES_PATH@
    }
}

/// The trace export URL for an OTLP endpoint.
pub fn traces_endpoint(endpoint: &str) -> (r: String)
    ensures
        r@ == spec_traces_endpoint(endpoint@),
{
    let e = chars_of(endpoint);
    let suffix = chars_of(TRACES_PATH);
    if ends_with(&e, &suffix) {
        owned(endpoint)
    } else {
        let base = trim_end_char(&e, '/');
        let mut out = string_of(&base);
        out.append(TRACES_PATH);
        out
    }
}

/// The pairs whose key is not empty, in order.
pub open spec fn drop_empty_keys(pairs: Seq<(Seq<char>, Seq<char>)>) -> Seq<(Seq<char>, Seq<char>)>
    decreases pairs.len(),
{
    if pairs.len() == 0 {
        pairs
    } else {
        drop_empty_keys(pairs.drop_last()) + if pairs.last().0.len() > 0 {
            seq![pairs.last()]
        } else {
            Seq::empty()
        }
    }
}

/// Parse exporter headers from a comma-separated `key=value` list: each item is
/// split at its first `=`, key and value are trimmed, and items without `=` or
/// with an empty key are skipped.  When collected into a map, later pairs
/// replace earlier ones with the same key.
pub fn parse_exporter_headers(s: &str) -> (r: Vec<(String, String)>)
    ensures
        string_pairs(r@) == drop_empty_keys(spec_parse_pairs(s@, false)),
{
    let pairs = parse_attributes(s);
    let ghost pv = string_pairs(pairs@);
    let mut kept: Vec<(String, String)> = Vec::new();
    let mut i: usize = 0;
    assert(pv.take(0) =~= Seq::<(Seq<char>, Seq<char>)>::empty());
    while i < pairs.len()
        invariant
            i <= pairs@.len(),
            pv == string_pairs(pairs@),
            string_pairs(kept@) == drop_empty_keys(pv.take(i as int)),
        decreases pairs@.len() - i,
    {
        let ghost before = string_pairs(kept@);
        assert(pv.take(i + 1).drop_last() =~= pv.take(i as int));
        assert(pv[i as int] == (pairs@[i as int].0@, pairs@[i as int].1@));
        if !pairs[i].0.as_str().is_empty() {
            let k = owned(pairs[i].0.as_str());
            let v = owned(pairs[i].1.as_str());
            kept.push((k, v));
            assert(string_pairs(kept@) =~= before + seq![pv[i as int]]);
        } else {
            assert(before + Seq::<(Seq<char>, Seq<char>)>::empty() =~= before);
        }
        i = i + 1;
    }
    assert(pv.take(i as int) =~= pv);
    kept
}

/// The resource attributes of a configuration: the service name, service version
/// and deployment environment, then the configured extra attributes in order.
pub fn resource_attributes(config: &OtelConfig) -> (r: Vec<(String, String)>)
    ensures
        string_pairs(r@) == seq![
            ("service.name"@, config.service_name@),
            ("service.version"@, config.service_version@),
            ("deployment.environment"@, config.deployment_environment@),
        ] + string_pairs(config.resource_attributes@),
{
    let mut out: Vec<(String, String)> = Vec::new();
    out.push((owned("service.name"), owned(config.service_name.as_str())));
    out.push((owned("service.version"), owned(config.service_version.as_str())));
    out.push((owned("deployment.environment"), owned(config.deployment_environment.as_str())));
    let ghost head = string_pairs(out@);
    let mut i: usize = 0;
    while i < config.resource_attributes.len()
        invariant
            i <= config.resource_attributes@.len(),
            string_pairs(out@) == head + string_pairs(config.resource_attributes@).take(i as int),
        decreases config.resource_attributes@.len() - i,
    {
        let k = owned(config.resource_attributes[i].0.as_str());
        let v = owned(config.resource_attributes[i].1.as_str());
        let ghost before = string_pairs(out@);
        let ghost item = (k@, v@);
        out.push((k, v));
        assert(string_pairs(out@) =~= before.push(item));
        assert(string_pairs(config.resource_attributes@)[i as int] == item);
        assert(string_pairs(config.resource_attributes@).take(i + 1) =~= string_pairs(
            config.resource_attributes@,
        ).take(i as int).push(item));
        assert(string_pairs(out@) =~= head + string_pairs(config.resource_attributes@).take(
            i + 1,
        ));
        i = i + 1;
    }
    assert(string_pairs(config.resource_attributes@).take(i as int) =~= string_pairs(
        config.resource_attributes@,
    ));
    assert(string_pairs(out@) =~= seq![
        ("service.name"@, config.service_name@),
        ("service.version"@, config.service_version@),
        ("deployment.environment"@, config.deployment_environment@),
    ] + string_pairs(config.resource_attributes@));
    out
}

/// Whether the SDK has been initialized in this process.
pub struct InitState {
    initialized: bool,
}

impl InitState {
    /// The state has been marked initialized.
    pub closed spec fn spec_initialized(&self) -> bool {
        self.initialized
    }

    /// A state in which the SDK is not yet initialized.
    pub fn new() -> (r: Self)
        ensures
            !r.spec_initialized(),
    {
        InitState { initialized: false }
    }

    /// Initialization may proceed only once: an error when the SDK is already initialized.
    pub fn check_not_initialized(&self) -> (r: Result<(), OtelError>)
        ensures
            r is Ok <==> !self.spec_initialized(),
            r matches Err(e) ==> e is AlreadyInitialized,
    {
        if self.initialized {
            Err(OtelError::AlreadyInitialized)
        } else {
            Ok(())
        }
    }

    /// Records that initialization succeeded.
    pub fn mark_initialized(&mut self)
        ensures
            final(self).spec_initialized(),
    {
        self.initialized = true;
    }

    /// The last step of an initialization that passed the check: when the
    /// exporter could not be built its error is the result and the state stays
    /// uninitialized, so that a later attempt may succeed; otherwise the state
    /// is marked initialized and the attempt succeeds.
    pub fn finish(&mut self, exporter_error: Option<OtelError>) -> (r: Result<(), OtelError>)
        requires
            !old(self).spec_initialized(),
        ensures
            match exporter_error {
                Some(e) => r == Err::<(), OtelError>(e) && !final(self).spec_initialized(),
                None => r is Ok && final(self).spec_initialized(),
            },
    {
        match exporter_error {
            Some(e) => Err(e),
            None => {
                self.mark_initialized();
                Ok(())
            },
        }
    }
}

/// Check if the SDK has been initialized.
pub fn is_initialized(state: &InitState) -> (r: bool)
    ensures
        r == state.spec_initialized(),
{
    state.initialized
}

/// Settings of the `tracing`-style pipeline, read from its environment variables.
#[derive(Clone, Debug)]
pub struct TelemetrySettings {
    /// Trace export URL
    pub traces_endpoint: String,
    /// `service.name`
    pub service_name: String,
    /// `service.version`
    pub service_version: String,
    /// `deployment.environment`
    pub deployment_environment: String,
    /// Exporter headers
    pub headers: Vec<(String, String)>,
}

/// The view of an optional string, or a default.
pub open spec fn opt_or(o: Option<&str>, d: Seq<char>) -> Seq<char> {
    match o {
        Some(s) => s@,
        None => d,
    }
}

impl TelemetrySettings {
    /// The settings that the environment values select: endpoint
    /// `http://localhost:4318`, service `service`, version `0.1.0` and
    /// environment `production` unless set; the headers parsed from their list,
    /// none when unset.
    pub fn from_env_values(
        endpoint: Option<&str>,
        service_name: Option<&str>,
        service_version: Option<&str>,
        deployment_environment: Option<&str>,
        headers: Option<&str>,
    ) -> (r: Self)
        ensures
            r.traces_endpoint@ == spec_traces_endpoint(
                opt_or(endpoint, "http://localhost:4318"@),
            ),
            r.service_name@ == opt_or(service_name, "service"@),
            r.service_version@ == opt_or(service_version, "0.1.0"@),
            r.deployment_environment@ == opt_or(deployment_environment, "production"@),
            string_pairs(r.headers@) == drop_empty_keys(
                spec_parse_pairs(opt_or(headers, Seq::empty()), false),
            ),
    {
        let endpoint_text = match endpoint {
            Some(e) => e,
            None => "http://localhost:4318",
        };
        let name = match service_name {
            Some(s) => s,
            None => "service",
        };
        let version = match service_version {
            Some(s) => s,
            None => "0.1.0",
        };
        let env = match deployment_environment {
            Some(s) => s,
            None => "production",
        };
        let header_text = match headers {
            Some(h) => owned(h),
            None => String::new(),
        };
        TelemetrySettings {
            traces_endpoint: traces_endpoint(endpoint_text),
            service_name: owned(name),
            service_version: owned(version),
            deployment_environment: owned(env),
            headers: parse_exporter_headers(header_text.as_str()),
        }
    }
}

} // verus!
