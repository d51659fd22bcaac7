//! Configuration of the telemetry pipeline: defaults, a builder, and the rules
//! by which the standard `OTEL_*` environment variables override the defaults.
//!
//! Durations are held as whole seconds and the nanoseconds beyond them, and
//! sampling ratios as the IEEE-754 bit pattern of the `f64` ratio.
use vstd::prelude::*;

use crate::ids::usize_from_decimal;
use crate::text::{
    chars_of, owned, replace_char, replace_char_spec, replace_percent20, replace_percent20_spec,
    ascii_lowercase, is_ascii_chars, lemma_ascii_lowercase, spec_to_lowercase, split, split_once, split_once_spec, split_spec, string_of, to_lowercase,
    trim, trim_spec, views, lemma_percent20_chars, lemma_trim_chars,
};

verus! {

/// The bit pattern of the `f64` value 1.0, the ratio used when none is given.
pub const RATIO_ONE_BITS: u64 = 0x3FF0_0000_0000_0000;

/// Sampling strategy for traces.  A ratio is the bit pattern of an `f64`.
#[derive(Clone, Copy, Debug, PartialEq, Eq, Structural)]
pub enum Sampler {
    /// Always sample all traces
    AlwaysOn,
    /// Never sample any traces
    AlwaysOff,
    /// Sample based on trace ID ratio
    TraceIdRatio(u64),
    /// Honor parent's sampling decision, default to always on
    ParentBasedAlwaysOn,
    /// Honor parent's sampling decision, default to always off
    ParentBasedAlwaysOff,
    /// Honor parent's sampling decision, default to trace ID ratio
    ParentBasedTraceIdRatio(u64),
}

impl Default for Sampler {
    fn default() -> (r: Self)
        ensures
            r == Sampler::ParentBasedAlwaysOn,
    {
        Sampler::ParentBasedAlwaysOn
    }
}

/// The sampler that an already lower-cased sampler name selects; `arg` is the
/// ratio for the ratio-based samplers (1.0 when absent).  Unknown names select
/// the default sampler.
pub open spec fn spec_sampler_from_lowercase(name: Seq<char>, arg: Option<u64>) -> Sampler {
    let ratio = match arg {
        Some(b) => b,
        None => RATIO_ONE_BITS,
    };
    if name == "always_on"@ {
        Sampler::AlwaysOn
    } else if name == "always_off"@ {
        Sampler::AlwaysOff
    } else if name == "traceid_ratio"@ {
        Sampler::TraceIdRatio(ratio)
    } else if name == "parentbased_always_on"@ {
        Sampler::ParentBasedAlwaysOn
    } else if name == "parentbased_always_off"@ {
        Sampler::ParentBasedAlwaysOff
    } else if name == "parentbased_traceid_ratio"@ {
        Sampler::ParentBasedTraceIdRatio(ratio)
    } else {
        Sampler::ParentBasedAlwaysOn
    }
}

/// The sampler names that select a sampler of their own.
pub open spec fn is_sampler_name(name: Seq<char>) -> bool {
    name == "always_on"@ || name == "always_off"@ || name == "traceid_ratio"@ || name
        == "parentbased_always_on"@ || name == "parentbased_always_off"@ || name
        == "parentbased_traceid_ratio"@
}

/// How sampler names are read: two names that lower-case alike select the
/// same sampler; a name that is none of the six selects the parent-based
/// always-on sampler whatever the argument; the ratio samplers take the
/// argument as their ratio, and ratio 1.0 without one.
pub proof fn lemma_sampler_names(s: Seq<char>, t: Seq<char>, name: Seq<char>, arg: Option<u64>)
    ensures
        spec_to_lowercase(s) == spec_to_lowercase(t) ==> spec_sampler_from_lowercase(
            spec_to_lowercase(s),
            arg,
        ) == spec_sampler_from_lowercase(spec_to_lowercase(t), arg),
        !is_sampler_name(name) ==> spec_sampler_from_lowercase(name, arg)
            == Sampler::ParentBasedAlwaysOn,
        spec_sampler_from_lowercase("traceid_ratio"@, arg) == Sampler::TraceIdRatio(
            match arg {
                Some(b) => b,
                None => RATIO_ONE_BITS,
            },
        ),
        spec_sampler_from_lowercase("parentbased_traceid_ratio"@, arg)
            == Sampler::ParentBasedTraceIdRatio(
            match arg {
                Some(b) => b,
                None => RATIO_ONE_BITS,
            },
        ),
{
    reveal_strlit("always_on");
    reveal_strlit("always_off");
    reveal_strlit("traceid_ratio");
    reveal_strlit("parentbased_always_on");
    reveal_strlit("parentbased_always_off");
    reveal_strlit("parentbased_traceid_ratio");
    assert("traceid_ratio"@[0] != "always_on"@[0]);
    assert("traceid_ratio"@[0] != "always_off"@[0]);
    assert("parentbased_traceid_ratio"@ != "always_on"@);
    assert("parentbased_traceid_ratio"@ != "always_off"@);
    assert("parentbased_traceid_ratio"@ != "traceid_ratio"@);
    assert("parentbased_traceid_ratio"@[12] != "parentbased_always_on"@[12]);
    assert("parentbased_traceid_ratio"@[12] != "parentbased_always_off"@[12]);
}

/// Sampler names are read without regard to case: an ASCII name selects the
/// same sampler as its lower-cased form does (which is ASCII and lower-cases to
/// itself), so that, for instance, `TraceId_Ratio` selects the ratio sampler.
pub proof fn lemma_sampler_name_case(s: Seq<char>, arg: Option<u64>)
    requires
        is_ascii_chars(s),
    ensures
        is_ascii_chars(ascii_lowercase(s)),
        spec_sampler_from_lowercase(ascii_lowercase(ascii_lowercase(s)), arg)
            == spec_sampler_from_lowercase(ascii_lowercase(s), arg),
        ascii_lowercase("TraceId_Ratio"@) == "traceid_ratio"@,
{
    lemma_ascii_lowercase(s);
    reveal_strlit("TraceId_Ratio");
    reveal_strlit("traceid_ratio");
    assert(ascii_lowercase("TraceId_Ratio"@) =~= "traceid_ratio"@);
}

impl Sampler {
    /// The sampler that an already lower-cased name selects.
    pub fn from_lowercase_name(name: &str, arg: Option<u64>) -> (r: Self)
        ensures
            r == spec_sampler_from_lowercase(name@, arg),
    {
        let ratio = match arg {
            Some(b) => b,
            None => RATIO_ONE_BITS,
        };
        let n = owned(name);
        if n == "always_on".to_owned() {
            Sampler::AlwaysOn
        } else if n == "always_off".to_owned() {
            Sampler::AlwaysOff
        } else if n == "traceid_ratio".to_owned() {
            Sampler::TraceIdRatio(ratio)
        } else if n == "parentbased_always_on".to_owned() {
            Sampler::ParentBasedAlwaysOn
        } else if n == "parentbased_always_off".to_owned() {
            Sampler::ParentBasedAlwaysOff
        } else if n == "parentbased_traceid_ratio".to_owned() {
            Sampler::ParentBasedTraceIdRatio(ratio)
        } else {
            Sampler::ParentBasedAlwaysOn
        }
    }

    /// Parse sampler from environment variable string (compared case-insensitively).
    pub fn from_str(s: &str, arg: Option<u64>) -> (r: Self)
        ensures
            r == spec_sampler_from_lowercase(spec_to_lowercase(s@), arg),
            is_ascii_chars(s@) ==> r == spec_sampler_from_lowercase(ascii_lowercase(s@), arg),
    {
        let lower = to_lowercase(s);
        Self::from_lowercase_name(lower.as_str(), arg)
    }
}

/// Nanoseconds in a second.
pub const NANOS_PER_SEC: u32 = 1_000_000_000;

/// A span of time: whole seconds and the nanoseconds beyond them (below one
/// second when made by the constructors), as `std::time::Duration` holds it.
#[derive(Clone, Copy, Debug, PartialEq, Eq, Structural)]
pub struct DurationValue {
    /// Whole seconds
    pub secs: u64,
    /// Nanoseconds beyond the whole seconds
    pub nanos: u32,
}

impl DurationValue {
    /// The length in nanoseconds.
    pub open spec fn total_nanos(self) -> nat {
        (self.secs * 1_000_000_000 + self.nanos) as nat
    }

    /// A duration of `secs` seconds and `nanos` nanoseconds; nanoseconds of a
    /// second or more carry into the seconds.
    pub fn new(secs: u64, nanos: u32) -> (r: Self)
        requires
            secs + nanos / 1_000_000_000 <= u64::MAX,
        ensures
            r.secs == secs + nanos / 1_000_000_000,
            r.nanos == nanos % 1_000_000_000,
            r.total_nanos() == secs * 1_000_000_000 + nanos,
    {
        let r = DurationValue { secs: secs + (nanos / NANOS_PER_SEC) as u64, nanos: nanos % NANOS_PER_SEC };
        assert(r.total_nanos() == secs * 1_000_000_000 + nanos) by (nonlinear_arith)
            requires
                r.secs == secs + nanos / 1_000_000_000,
                r.nanos == nanos % 1_000_000_000,
        ;
        r
    }

    /// A duration of whole seconds.
    pub fn from_secs(secs: u64) -> (r: Self)
        ensures
            r == (DurationValue { secs, nanos: 0 }),
    {
        DurationValue { secs, nanos: 0 }
    }

    /// A duration of whole milliseconds.
    pub fn from_millis(millis: u64) -> (r: Self)
        ensures
            r.secs == millis / 1000,
            r.nanos == (millis % 1000) * 1_000_000,
            r.total_nanos() == millis * 1_000_000,
    {
        let secs = millis / 1000;
        let rest = millis % 1000;
        let r = DurationValue { secs, nanos: (rest as u32) * 1_000_000 };
        assert(r.total_nanos() == millis * 1_000_000) by (nonlinear_arith)
            requires
                r.secs == millis / 1000,
                r.nanos == (millis % 1000) * 1_000_000,
        ;
        r
    }
}

/// Configuration for the batch span processor.
#[derive(Clone, Copy, Debug, PartialEq, Eq, Structural)]
pub struct BatchConfig {
    /// Maximum queue size
    pub max_queue_size: usize,
    /// Maximum export batch size
    pub max_export_batch_size: usize,
    /// Scheduled delay between exports
    pub scheduled_delay: DurationValue,
    /// Maximum allowed export duration
    pub max_export_timeout: DurationValue,
}

impl Default for BatchConfig {
    fn default() -> (r: Self)
        ensures
            r.max_queue_size == 2048,
            r.max_export_batch_size == 512,
            r.scheduled_delay == (DurationValue { secs: 5, nanos: 0 }),
            r.max_export_timeout == (DurationValue { secs: 30, nanos: 0 }),
    {
        BatchConfig {
            max_queue_size: 2048,
            max_export_batch_size: 512,
            scheduled_delay: DurationValue::from_millis(5000),
            max_export_timeout: DurationValue::from_secs(30),
        }
    }
}

/// The character sequences of a list of string pairs.
pub open spec fn string_pairs(v: Seq<(String, String)>) -> Seq<(Seq<char>, Seq<char>)> {
    v.map_values(|p: (String, String)| (p.0@, p.1@))
}

/// Configuration for the SDK.
#[derive(Clone, Debug)]
pub struct OtelConfig {
    /// Service name for traces
    pub service_name: String,
    /// Service version
    pub service_version: String,
    /// Deployment environment
    pub deployment_environment: String,
    /// OTLP exporter endpoint
    pub endpoint: String,
    /// Headers for OTLP exporter (key=value pairs)
    pub headers: Vec<(String, String)>,
    /// Sampling strategy
    pub sampler: Sampler,
    /// Maximum attribute value length
    pub attribute_value_length_limit: usize,
    /// Export timeout
    pub export_timeout: DurationValue,
    /// Batch span processor configuration
    pub batch_config: BatchConfig,
    /// Enable console exporter for debugging
    pub console_exporter: bool,
    /// Additional resource attributes
    pub resource_attributes: Vec<(String, String)>,
}

/// The default configuration.
pub open spec fn is_default_config(c: OtelConfig) -> bool {
    &&& c.service_name@ == "unknown-service"@
    &&& c.service_version@ == "1.0.0"@
    &&& c.deployment_environment@ == "production"@
    &&& c.endpoint@ == "http://localhost:4318"@
    &&& c.headers@.len() == 0
    &&& c.sampler == Sampler::ParentBasedAlwaysOn
    &&& c.attribute_value_length_limit == 256
    &&& c.export_timeout == DurationValue { secs: 10, nanos: 0 }
    &&& c.batch_config == BatchConfig::default_value()
    &&& !c.console_exporter
    &&& c.resource_attributes@.len() == 0
}

impl Default for OtelConfig {
    fn default() -> (r: Self)
        ensures
            is_default_config(r),
    {
        OtelConfig {
            service_name: "unknown-service".to_owned(),
            service_version: "1.0.0".to_owned(),
            deployment_environment: "production".to_owned(),
            endpoint: "http://localhost:4318".to_owned(),
            headers: Vec::new(),
            sampler: Sampler::default(),
            attribute_value_length_limit: 256,
            export_timeout: DurationValue::from_secs(10),
            batch_config: BatchConfig::default(),
            console_exporter: false,
            resource_attributes: Vec::new(),
        }
    }
}

// ---------------------------------------------------------------------------
// key=value lists
// ---------------------------------------------------------------------------

/// The value of an exporter header after decoding: `+` and `%20` become spaces.
pub open spec fn decode_header_value(v: Seq<char>) -> Seq<char> {
    replace_percent20_spec(replace_char_spec(v, '+', ' '))
}

/// The pair that one `key=value` item gives: split at the first `=`, the key
/// trimmed, the value decoded when `decode` holds and then trimmed; none for an
/// item without `=`.
pub open spec fn pair_item_spec(item: Seq<char>, decode: bool) -> Option<(Seq<char>, Seq<char>)> {
    match split_once_spec(item, '=') {
        Some(kv) => Some(
            (
                trim_spec(kv.0),
                trim_spec(
                    if decode {
                        decode_header_value(kv.1)
                    } else {
                        kv.1
                    },
                ),
            ),
        ),
        None => None,
    }
}

/// The pairs of a list of items, in order, skipping items without `=`.
pub open spec fn collect_pairs(items: Seq<Seq<char>>, decode: bool) -> Seq<(Seq<char>, Seq<char>)>
    decreases items.len(),
{
    if items.len() == 0 {
        Seq::empty()
    } else {
        collect_pairs(items.drop_last(), decode) + match pair_item_spec(items.last(), decode) {
            Some(p) => seq![p],
            None => Seq::empty(),
        }
    }
}

/// The pairs of a comma-separated `key=value` list.
pub open spec fn spec_parse_pairs(s: Seq<char>, decode: bool) -> Seq<(Seq<char>, Seq<char>)> {
    collect_pairs(split_spec(s, ','), decode)
}

/// Decoding an exporter header value turns every `+` into a space, position by
/// position, before `%20` is decoded; no `+` is left in the result.
pub proof fn lemma_decode_plus(v: Seq<char>)
    ensures
        decode_header_value(v) == replace_percent20_spec(
            Seq::new(
                v.len(),
                |i: int|
                    if v[i] == '+' {
                        ' '
                    } else {
                        v[i]
                    },
            ),
        ),
        !decode_header_value(v).contains('+'),
{
    let w = Seq::new(
        v.len(),
        |i: int|
            if v[i] == '+' {
                ' '
            } else {
                v[i]
            },
    );
    assert(replace_char_spec(v, '+', ' ') =~= w);
    lemma_percent20_chars(w);
    let d = decode_header_value(v);
    if d.contains('+') {
        let k = choose|k: int| 0 <= k < d.len() && d[k] == '+';
        assert(d[k] == ' ' || w.contains(d[k]));
        let j = choose|j: int| 0 <= j < w.len() && w[j] == '+';
        assert(w[j] != '+');
    }
}

proof fn lemma_collect_no_plus(items: Seq<Seq<char>>)
    ensures
        forall|i: int|
            0 <= i < collect_pairs(items, true).len() ==> !(#[trigger] collect_pairs(
                items,
                true,
            )[i]).1.contains('+'),
    decreases items.len(),
{
    if items.len() > 0 {
        lemma_collect_no_plus(items.drop_last());
        let pre = collect_pairs(items.drop_last(), true);
        let all = collect_pairs(items, true);
        match split_once_spec(items.last(), '=') {
            Some(kv) => {
                lemma_decode_plus(kv.1);
                lemma_trim_chars(decode_header_value(kv.1), '+');
            },
            None => {},
        }
        assert forall|i: int| 0 <= i < all.len() implies !(#[trigger] all[i]).1.contains('+') by {
            if i < pre.len() {
                assert(all[i] == pre[i]);
            }
        }
    }
}

/// Every exporter header value parsed from a `key=value` list is free of `+`:
/// each `+` of the raw list became a space.
pub proof fn lemma_parsed_headers_have_no_plus(s: Seq<char>)
    ensures
        forall|i: int|
            0 <= i < spec_parse_pairs(s, true).len() ==> !(#[trigger] spec_parse_pairs(
                s,
                true,
            )[i]).1.contains('+'),
{
    lemma_collect_no_plus(split_spec(s, ','));
}

fn parse_item(item: &Vec<char>, decode: bool) -> (r: Option<(String, String)>)
    ensures
        match (r, pair_item_spec(item@, decode)) {
            (Some(p), Some(q)) => p.0@ == q.0 && p.1@ == q.1,
            (None, None) => true,
            _ => false,
        },
{
    match split_once(item, '=') {
        Some((k, v)) => {
            let key = trim(&k);
            let value = if decode {
                let plus = replace_char(&v, '+', ' ');
                replace_percent20(&plus)
            } else {
                v
            };
            let value = trim(&value);
            Some((string_of(&key), string_of(&value)))
        },
        None => None,
    }
}

fn parse_pairs(s: &str, decode: bool) -> (r: Vec<(String, String)>)
    ensures
        string_pairs(r@) == spec_parse_pairs(s@, decode),
{
    let cs = chars_of(s);
    let items = split(&cs, ',');
    let ghost iv = views(items@);
    let mut out: Vec<(String, String)> = Vec::new();
    let mut i: usize = 0;
    assert(iv.take(0) =~= Seq::<Seq<char>>::empty());
    while i < items.len()
        invariant
            i <= items@.len(),
            iv == views(items@),
            string_pairs(out@) == collect_pairs(iv.take(i as int), decode),
        decreases items@.len() - i,
    {
        assert(iv.take(i + 1).drop_last() =~= iv.take(i as int));
        assert(iv[i as int] == items@[i as int]@);
        let ghost before = string_pairs(out@);
        match parse_item(&items[i], decode) {
            Some(p) => {
                out.push(p);
                assert(string_pairs(out@) =~= before + seq![(p.0@, p.1@)]);
            },
            None => {
                assert(before + Seq::<(Seq<char>, Seq<char>)>::empty() =~= before);
            },
        }
        i = i + 1;
    }
    assert(iv.take(i as int) =~= iv);
    out
}

/// Parse headers from a comma-separated string of key=value pairs.  Each item
/// is split at its first `=`; the key is trimmed; in the value `+` and `%20`
/// become spaces before it is trimmed.  Items without `=` are skipped.
pub fn parse_headers(s: &str) -> (r: Vec<(String, String)>)
    ensures
        string_pairs(r@) == spec_parse_pairs(s@, true),
{
    parse_pairs(s, true)
}

/// Parse resource attributes from a comma-separated string of key=value pairs.
/// Each item is split at its first `=`; key and value are trimmed.  Items
/// without `=` are skipped.
pub fn parse_attributes(s: &str) -> (r: Vec<(String, String)>)
    ensures
        string_pairs(r@) == spec_parse_pairs(s@, false),
{
    parse_pairs(s, false)
}

// ---------------------------------------------------------------------------
// Environment
// ---------------------------------------------------------------------------

/// The values of the configuration environment variables, each absent when the
/// variable is unset.  `sampler_arg` is the `OTEL_TRACES_SAMPLER_ARG` value
/// already read as an `f64` (its bit pattern), absent when unset or not a number.
#[derive(Clone, Debug)]
pub struct EnvValues {
    /// `OTEL_SERVICE_NAME`
    pub service_name: Option<String>,
    /// `OTEL_SERVICE_VERSION`
    pub service_version: Option<String>,
    /// `DEPLOYMENT_ENVIRONMENT`
    pub deployment_environment: Option<String>,
    /// `OTEL_EXPORTER_OTLP_ENDPOINT`
    pub endpoint: Option<String>,
    /// `OTEL_EXPORTER_OTLP_HEADERS`
    pub headers: Option<String>,
    /// `OTEL_TRACES_SAMPLER`
    pub sampler: Option<String>,
    /// `OTEL_TRACES_SAMPLER_ARG`, as the bits of the `f64` it holds
    pub sampler_arg: Option<u64>,
    /// `OTEL_ATTRIBUTE_VALUE_LENGTH_LIMIT`
    pub attribute_value_length_limit: Option<String>,
    /// `OTEL_RESOURCE_ATTRIBUTES`
    pub resource_attributes: Option<String>,
    /// `OTEL_EXPORTER_CONSOLE`
    pub console_exporter: Option<String>,
}

/// `v` when present, the default `d` otherwise.
pub open spec fn or_default(v: Option<String>, d: Seq<char>) -> Seq<char> {
    match v {
        Some(s) => s@,
        None => d,
    }
}

impl OtelConfig {
    /// Create a new configuration builder.
    pub fn builder() -> (r: OtelConfigBuilder)
        ensures
            is_default_config(r.config),
    {
        OtelConfigBuilder { config: OtelConfig::default() }
    }

    /// The configuration that the given environment values select: each
    /// variable that is set overrides its default; the headers and resource
    /// attributes are parsed from their `key=value` lists; the length limit is
    /// taken only when it reads as a `usize`; the console exporter is on when the
    /// variable is `true` or `1`.
    pub fn from_env_values(env: EnvValues) -> (r: Self)
        ensures
            r.service_name@ == or_default(env.service_name, "unknown-service"@),
            r.service_version@ == or_default(env.service_version, "1.0.0"@),
            r.deployment_environment@ == or_default(env.deployment_environment, "production"@),
            r.endpoint@ == or_default(env.endpoint, "http://localhost:4318"@),
            string_pairs(r.headers@) == match env.headers {
                Some(h) => spec_parse_pairs(h@, true),
                None => Seq::empty(),
            },
            r.sampler == match env.sampler {
                Some(s) => spec_sampler_from_lowercase(spec_to_lowercase(s@), env.sampler_arg),
                None => Sampler::ParentBasedAlwaysOn,
            },
            r.attribute_value_length_limit as nat == match env.attribute_value_length_limit {
                Some(l) => match crate::digits::parse_unsigned_spec(l@, 10, usize::MAX as nat) {
                    Some(n) => n,
                    None => 256,
                },
                None => 256,
            },
            string_pairs(r.resource_attributes@) == match env.resource_attributes {
                Some(a) => spec_parse_pairs(a@, false),
                None => Seq::empty(),
            },
            r.console_exporter == match env.console_exporter {
                Some(c) => c@ == "true"@ || c@ == "1"@,
                None => false,
            },
            r.export_timeout == (DurationValue { secs: 10, nanos: 0 }),
            r.batch_config == BatchConfig::default_value(),
    {
        let mut config = Self::default();
        assert(string_pairs(config.headers@) =~= Seq::empty());
        assert(string_pairs(config.resource_attributes@) =~= Seq::empty());
        if let Some(name) = env.service_name {
            config.service_name = name;
        }
        if let Some(version) = env.service_version {
            config.service_version = version;
        }
        if let Some(env_name) = env.deployment_environment {
            config.deployment_environment = env_name;
        }
        if let Some(endpoint) = env.endpoint {
            config.endpoint = endpoint;
        }
        if let Some(headers_str) = env.headers {
            config.headers = parse_headers(headers_str.as_str());
        }
        if let Some(sampler_str) = env.sampler {
            config.sampler = Sampler::from_str(sampler_str.as_str(), env.sampler_arg);
        }
        if let Some(limit_str) = env.attribute_value_length_limit {
            if let Some(limit) = usize_from_decimal(limit_str.as_str()) {
                config.attribute_value_length_limit = limit;
            }
        }
        if let Some(attrs) = env.resource_attributes {
            config.resource_attributes = parse_attributes(attrs.as_str());
        }
        if let Some(console) = env.console_exporter {
            config.console_exporter = console == "true".to_owned() || console == "1".to_owned();
        }
        config
    }
}

impl BatchConfig {
    /// The default batch configuration.
    pub open spec fn default_value() -> BatchConfig {
        BatchConfig {
            max_queue_size: 2048,
            max_export_batch_size: 512,
            scheduled_delay: DurationValue { secs: 5, nanos: 0 },
            max_export_timeout: DurationValue { secs: 30, nanos: 0 },
        }
    }
}

// ---------------------------------------------------------------------------
// Builder
// ---------------------------------------------------------------------------

/// Builder for OtelConfig
pub struct OtelConfigBuilder {
    /// The configuration built so far
    pub config: OtelConfig,
}

impl Default for OtelConfigBuilder {
    fn default() -> (r: Self)
        ensures
            is_default_config(r.config),
    {
        OtelConfigBuilder { config: OtelConfig::default() }
    }
}

/// `a` and `b` agree on every field but the ones a builder step may change
/// (named by the flags).
pub open spec fn same_except(
    a: OtelConfig,
    b: OtelConfig,
    name: bool,
    version: bool,
    environment: bool,
    endpoint: bool,
    headers: bool,
    sampler: bool,
    limit: bool,
    timeout: bool,
    batch: bool,
    console: bool,
    attributes: bool,
) -> bool {
    &&& (!name ==> a.service_name@ == b.service_name@)
    &&& (!version ==> a.service_version@ == b.service_version@)
    &&& (!environment ==> a.deployment_environment@ == b.deployment_environment@)
    &&& (!endpoint ==> a.endpoint@ == b.endpoint@)
    &&& (!headers ==> string_pairs(a.headers@) == string_pairs(b.headers@))
    &&& (!sampler ==> a.sampler == b.sampler)
    &&& (!limit ==> a.attribute_value_length_limit == b.attribute_value_length_limit)
    &&& (!timeout ==> a.export_timeout == b.export_timeout)
    &&& (!batch ==> a.batch_config == b.batch_config)
    &&& (!console ==> a.console_exporter == b.console_exporter)
    &&& (!attributes ==> string_pairs(a.resource_attributes@) == string_pairs(
        b.resource_attributes@,
    ))
}

impl OtelConfigBuilder {
    /// Set the service name.
    pub fn service_name(self, name: &str) -> (r: Self)
        ensures
            r.config.service_name@ == name@,
            same_except(
                r.config,
                self.config,
                true,
                false,
                false,
                false,
                false,
                false,
                false,
                false,
                false,
                false,
                false,
            ),
    {
        let mut b = self;
        b.config.service_name = owned(name);
        b
    }

    /// Set the service version.
    pub fn service_version(self, version: &str) -> (r: Self)
        ensures
            r.config.service_version@ == version@,
            same_except(
                r.config,
                self.config,
                false,
                true,
                false,
                false,
                false,
                false,
                false,
                false,
                false,
                false,
                false,
            ),
    {
        let mut b = self;
        b.config.service_version = owned(version);
        b
    }

    /// Set the deployment environment.
    pub fn deployment_environment(self, env: &str) -> (r: Self)
        ensures
            r.config.deployment_environment@ == env@,
            same_except(
                r.config,
                self.config,
                false,
                false,
                true,
                false,
                false,
                false,
                false,
                false,
                false,
                false,
                false,
            ),
    {
        let mut b = self;
        b.config.deployment_environment = owned(env);
        b
    }

    /// Set the OTLP endpoint.
    pub fn endpoint(self, endpoint: &str) -> (r: Self)
        ensures
            r.config.endpoint@ == endpoint@,
            same_except(
                r.config,
                self.config,
                false,
                false,
                false,
                true,
                false,
                false,
                false,
                false,
                false,
                false,
                false,
            ),
    {
        let mut b = self;
        b.config.endpoint = owned(endpoint);
        b
    }

    /// Add a header for the OTLP exporter.
    pub fn header(self, key: &str, value: &str) -> (r: Self)
        ensures
            string_pairs(r.config.headers@) == string_pairs(self.config.headers@).push(
                (key@, value@),
            ),
            same_except(
                r.config,
                self.config,
                false,
                false,
                false,
                false,
                true,
                false,
                false,
                false,
                false,
                false,
                false,
            ),
    {
        let mut b = self;
        b.config.headers.push((owned(key), owned(value)));
        assert(string_pairs(b.config.headers@) =~= string_pairs(self.config.headers@).push(
            (key@, value@),
        ));
        b
    }

    /// Set the sampling strategy.
    pub fn sampler(self, sampler: Sampler) -> (r: Self)
        ensures
            r.config.sampler == sampler,
            same_except(
                r.config,
                self.config,
                false,
                false,
                false,
                false,
                false,
                true,
                false,
                false,
                false,
                false,
                false,
            ),
    {
        let mut b = self;
        b.config.sampler = sampler;
        b
    }

    /// Set the attribute value length limit.
    pub fn attribute_value_length_limit(self, limit: usize) -> (r: Self)
        ensures
            r.config.attribute_value_length_limit == limit,
            same_except(
                r.config,
                self.config,
                false,
                false,
                false,
                false,
                false,
                false,
                true,
                false,
                false,
                false,
                false,
            ),
    {
        let mut b = self;
        b.config.attribute_value_length_limit = limit;
        b
    }

    /// Set the export timeout.
    pub fn export_timeout(self, timeout: DurationValue) -> (r: Self)
        ensures
            r.config.export_timeout == timeout,
            same_except(
                r.config,
                self.config,
                false,
                false,
                false,
                false,
                false,
                false,
                false,
                true,
                false,
                false,
                false,
            ),
    {
        let mut b = self;
        b.config.export_timeout = timeout;
        b
    }

    /// Set batch processor configuration.
    pub fn batch_config(self, batch_config: BatchConfig) -> (r: Self)
        ensures
            r.config.batch_config == batch_config,
            same_except(
                r.config,
                self.config,
                false,
                false,
                false,
                false,
                false,
                false,
                false,
                false,
                true,
                false,
                false,
            ),
    {
        let mut b = self;
        b.config.batch_config = batch_config;
        b
    }

    /// Enable console exporter for debugging.
    pub fn console_exporter(self, enabled: bool) -> (r: Self)
        ensures
            r.config.console_exporter == enabled,
            same_except(
                r.config,
                self.config,
                false,
                false,
                false,
                false,
                false,
                false,
                false,
                false,
                false,
                true,
                false,
            ),
    {
        let mut b = self;
        b.config.console_exporter = enabled;
        b
    }

    /// Add a resource attribute.
    pub fn resource_attribute(self, key: &str, value: &str) -> (r: Self)
        ensures
            string_pairs(r.config.resource_attributes@) == string_pairs(
                self.config.resource_attributes@,
            ).push((key@, value@)),
            same_except(
                r.config,
                self.config,
                false,
                false,
                false,
                false,
                false,
                false,
                false,
                false,
                false,
                false,
                true,
            ),
    {
        let mut b = self;
        b.config.resource_attributes.push((owned(key), owned(value)));
        assert(string_pairs(b.config.resource_attributes@) =~= string_pairs(
            self.config.resource_attributes@,
        ).push((key@, value@)));
        b
    }

    /// Build the configuration.
    pub fn build(self) -> (r: OtelConfig)
        ensures
            r == self.config,
    {
        self.config
    }
}

} // verus!
