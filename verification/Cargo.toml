[package]
name = "thespian"
version = "0.1.0"
edition = "2021"
publish = false

[dependencies]
async-recursion = "1"
futures = "0.3"
http = "0.2"
opentelemetry = "=0.20.0"
opentelemetry-otlp = "0.13"
prost = "0.11"
rand = "=0.8.8"
serde_json = "=1.0.154"
tokio = { version = "1", features = ["macros", "rt", "time"] }
tonic = "0.9"
tracing = "0.1"
tracing-loki = "0.2"
tracing-opentelemetry = "0.20"
tracing-subscriber = { version = "0.3", features = ["env-filter"] }
url = "2"
