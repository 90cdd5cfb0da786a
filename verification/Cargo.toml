[package]
name = "combat_telemetry_http"
version = "0.1.0"
edition = "2021"
publish = false

[dependencies]
axum = "0.7"
log = "0.4"
serde = { version = "1", features = ["derive"] }
serde_json = "1"
tokio = { version = "1", features = ["rt-multi-thread", "net", "macros"] }
tower = "0.4"
tower-http = { version = "0.5", features = ["cors", "fs"] }
