[package]
name = "vivatech_planner"
version = "0.1.0"
edition = "2021"
publish = false

[dependencies]
anyhow = "1"
axum = "0.8"
chrono = "=0.4.45"
regex = "=1.13.1"
reqwest = { version = "0.12", features = ["json"] }
rig-core = "0.13"
serde = { version = "1", features = ["derive"] }
serde_json = "1"
shuttle-axum = "0.55"
shuttle-runtime = "0.55"
thiserror = "2"
tokio = "1"
tracing = "0.1"
