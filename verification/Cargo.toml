[package]
name = "greentic-telemetry"
version = "0.1.0"
edition = "2021"
publish = false

[dependencies]
anyhow = "1"
blake3 = { version = "1", features = ["pure"] }
once_cell = "1"
opentelemetry = { version = "*", features = ["metrics", "trace"] }
serde = { version = "1", features = ["derive"] }
tracing = "0.1"

[dev-dependencies]
serde_json = "1"
