[package]
name = "ag_ui"
version = "0.1.0"
edition = "2021"
publish = false

[dependencies]
uuid = { version = "1", features = ["v4", "v5"] }
serde = { version = "1", features = ["derive"] }
serde_json = "1"
json-patch = "*"
futures = "0.3"
async-trait = "0.1"
tokio-util = "0.7"
bytes = "1"
thiserror = "*"
log = "0.4"
tracing = "0.1"
parking_lot = "0.12"
axum = "*"

[dev-dependencies]
