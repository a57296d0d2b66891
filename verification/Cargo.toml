[package]
name = "theochallengers"
version = "0.1.0"
edition = "2021"
publish = false

[dependencies]
mdns-sd = "=0.21.5"
tokio = { version = "=1.53.2", features = ["rt-multi-thread", "net", "macros", "sync"] }
axum = "=0.8.9"
tower-http = { version = "=0.7.1", features = ["cors"] }
serde = { version = "=1.0.229", features = ["derive"] }
local-ip-address = "=0.6.13"
