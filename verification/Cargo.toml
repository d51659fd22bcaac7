[package]
name = "rust_otel_auto"
version = "0.1.0"
edition = "2021"
publish = false

[dependencies]
opentelemetry = "0.27"
opentelemetry_sdk = { version = "0.27", features = ["rt-tokio"] }
opentelemetry-otlp = { version = "0.27", default-features = false, features = ["trace", "http-proto", "reqwest-client"] }
opentelemetry-semantic-conventions = { version = "0.27", features = ["semconv_experimental"] }
tracing = "0.1"
tracing-subscriber = { version = "0.3", features = ["env-filter", "json"] }
tracing-opentelemetry = "0.28"
tokio = { version = "1", features = ["rt-multi-thread", "macros", "time"] }
reqwest = { version = "0.12", default-features = false, features = ["json"] }
axum = "0.6"
tower = "0.4"
tower-http = { version = "0.4", features = ["trace"] }
actix-web = { version = "4", default-features = false, features = ["macros"] }
async-graphql = { version = "7", default-features = false }
async-trait = "0.1"
futures = "0.3"
once_cell = "1"
parking_lot = "0.12"
pin-project-lite = "0.2"
serde = { version = "1", features = ["derive"] }
serde_json = "1"
thiserror = "1"
