[package]
name = "mas_graphql"
version = "0.1.0"
edition = "2021"
publish = false

[dependencies]
async-graphql = { version = "7", default-features = false, features = ["chrono", "playground", "tracing"] }
async-trait = "0.1"
axum = "0.8"
axum-extra = { version = "0.10", features = ["typed-header"] }
chrono = "0.4"
futures-util = "0.3"
headers = "0.4"
hyper = "1"
opentelemetry-semantic-conventions = { version = "0.29", features = ["semconv_experimental"] }
rand = "0.8"
rand_chacha = "0.3"
regex = "1"
sentry = { version = "0.36", default-features = false }
serde = { version = "1", features = ["derive"] }
serde_json = "1"
thiserror = "2"
tracing = "0.1"
ulid = "1"
woothee = "0.13"
