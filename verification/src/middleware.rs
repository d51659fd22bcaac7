//! HTTP server middleware: the spans that request handling records.
pub mod actix;
pub mod axum;
pub mod common;
