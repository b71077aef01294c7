[package]
name = "gh-action-trace"
version = "0.1.0"
edition = "2021"
publish = false

[dependencies]
anyhow = "=1.0.104"
chrono = { version = "=0.4.45", default-features = false, features = ["std"] }
clap = { version = "=3.2.25", features = ["derive"] }
indicatif = "0.17"
octocrab = "=0.12.0"
opentelemetry = "=0.16.0"
opentelemetry-jaeger = "=0.15.0"
serde_json = "=1.0.154"
tokio = { version = "=1.43.4", features = ["full"] }
