[package]
name = "actix_demo"
version = "0.1.0"
edition = "2021"
publish = false

[dependencies]
actix-web = "4"
actix-web-opentelemetry = { version = "0.15", features = ["metrics-prometheus"] }
anyhow = "1"
config = "0.13"
opentelemetry = { version = "0.20", features = ["metrics"] }
opentelemetry-http = "0.9"
opentelemetry-otlp = "0.13"
opentelemetry-prometheus = "0.13"
opentelemetry_sdk = { version = "0.20", features = ["rt-tokio", "metrics"] }
opentelemetry-semantic-conventions = "0.12"
prometheus = "0.13"
rdkafka = "0.36"
reqwest = "0.11"
serde = { version = "1", features = ["derive"] }
sqlx = { version = "0.7", features = ["runtime-tokio", "sqlite"] }
thiserror = "1"
tracing = "0.1"
tracing-actix-web = { version = "0.7", features = ["opentelemetry_0_20"] }
tracing-log = "0.2"
tracing-opentelemetry = "0.21"
tracing-subscriber = { version = "0.3", features = ["env-filter", "fmt"] }
uuid = { version = "1", features = ["v7"] }
