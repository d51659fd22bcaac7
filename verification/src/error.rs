//! Errors of SDK initialization and operation.
use vstd::prelude::*;

use crate::text::owned;

verus! {

#[verifier::external_type_specification]
#[verifier::external_body]
pub struct ExIoError(std::io::Error);

/// Errors that can occur during OpenTelemetry initialization and operation.
#[derive(Debug)]
pub enum OtelError {
    /// Failed to create the OTLP exporter
    ExporterCreation(String),
    /// Failed to create the tracer provider
    TracerProviderCreation(String),
    /// Failed to initialize the SDK
    SdkInitialization(String),
    /// Configuration error
    Configuration(String),
    /// Context propagation error
    ContextPropagation(String),
    /// Span creation error
    SpanCreation(String),
    /// Export error
    Export(String),
    /// SDK already initialized
    AlreadyInitialized,
    /// SDK not initialized
    NotInitialized,
    /// Invalid trace context
    InvalidTraceContext(String),
    /// IO error
    Io(std::io::Error),
}

/// Result type alias for OtelError
pub type OtelResult<T> = Result<T, OtelError>;

/// The message of an error, for every variant but `Io`, whose message begins
/// with `IO error: ` and continues with the operating system's description.
pub open spec fn spec_message(e: &OtelError) -> Option<Seq<char>> {
    match e {
        OtelError::ExporterCreation(s) => Some("Failed to create OTLP exporter: "@ + s@),
        OtelError::TracerProviderCreation(s) => Some("Failed to create tracer provider: "@ + s@),
        OtelError::SdkInitialization(s) => Some(
            "Failed to initialize OpenTelemetry SDK: "@ + s@,
        ),
        OtelError::Configuration(s) => Some("Configuration error: "@ + s@),
        OtelError::ContextPropagation(s) => Some("Context propagation error: "@ + s@),
        OtelError::SpanCreation(s) => Some("Failed to create span: "@ + s@),
        OtelError::Export(s) => Some("Failed to export telemetry data: "@ + s@),
        OtelError::AlreadyInitialized => Some("OpenTelemetry SDK already initialized"@),
        OtelError::NotInitialized => Some("OpenTelemetry SDK not initialized"@),
        OtelError::InvalidTraceContext(s) => Some("Invalid trace context: "@ + s@),
        OtelError::Io(_) => None,
    }
}

/// The `Display` text of a `std::io::Error`.  It comes from the operating
/// system: nothing is stated of it.
#[verifier::external_body]
fn io_error_text(e: &std::io::Error) -> String {
    e.to_string()
}

impl OtelError {
    /// The error's message.
    pub fn message(&self) -> (r: String)
        ensures
            match spec_message(self) {
                Some(m) => r@ == m,
                None => r@.len() >= 10 && r@.take(10) == "IO error: "@,
            },
    {
        match self {
            OtelError::ExporterCreation(s) => {
                let mut m = owned("Failed to create OTLP exporter: ");
                m.append(s.as_str());
                m
            },
            OtelError::TracerProviderCreation(s) => {
                let mut m = owned("Failed to create tracer provider: ");
                m.append(s.as_str());
                m
            },
            OtelError::SdkInitialization(s) => {
                let mut m = owned("Failed to initialize OpenTelemetry SDK: ");
                m.append(s.as_str());
                m
            },
            OtelError::Configuration(s) => {
                let mut m = owned("Configuration error: ");
                m.append(s.as_str());
                m
            },
            OtelError::ContextPropagation(s) => {
                let mut m = owned("Context propagation error: ");
                m.append(s.as_str());
                m
            },
            OtelError::SpanCreation(s) => {
                let mut m = owned("Failed to create span: ");
                m.append(s.as_str());
                m
            },
            OtelError::Export(s) => {
                let mut m = owned("Failed to export telemetry data: ");
                m.append(s.as_str());
                m
            },
            OtelError::AlreadyInitialized => owned("OpenTelemetry SDK already initialized"),
            OtelError::NotInitialized => owned("OpenTelemetry SDK not initialized"),
            OtelError::InvalidTraceContext(s) => {
                let mut m = owned("Invalid trace context: ");
                m.append(s.as_str());
                m
            },
            OtelError::Io(e) => {
                let mut m = owned("IO error: ");
                let t = io_error_text(e);
                m.append(t.as_str());
                proof {
                    reveal_strlit("IO error: ");
                }
                assert(m@.take(10) =~= "IO error: "@);
                m
            },
        }
    }
}

impl From<std::io::Error> for OtelError {
    fn from(e: std::io::Error) -> (r: Self) {
        OtelError::Io(e)
    }
}

impl vstd::std_specs::convert::FromSpecImpl<std::io::Error> for OtelError {
    open spec fn obeys_from_spec() -> bool {
        true
    }

    open spec fn from_spec(v: std::io::Error) -> OtelError {
        OtelError::Io(v)
    }
}

} // verus!
