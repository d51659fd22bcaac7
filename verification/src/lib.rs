//! Verified core of an OpenTelemetry auto-instrumentation toolkit.
use vstd::prelude::*;

pub mod client;
pub mod config;
pub mod db;
pub mod demo_store;
pub mod digits;
pub mod error;
pub mod graphql;
pub mod headers;
pub mod instrument;
pub mod layer;
pub mod middleware;
pub mod ids;
pub mod propagator;
pub mod sdk;
pub mod span;
pub mod span_ext;
pub mod text;

verus! {

} // verus!
