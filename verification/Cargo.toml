[package]
name = "component_daemon"
version = "0.1.0"
edition = "2021"
publish = false

[dependencies]
serde_json = "=1.0.151"
chrono = "=0.4.45"
serde = { version = "*", features = ["derive"] }
anyhow = "*"
tokio = { version = "=1.53.2", features = ["macros", "rt-multi-thread", "sync", "time", "net"] }
warp = "=0.3.7"
async-graphql = "=7.2.1"
async-graphql-warp = "=7.2.1"
async-stream = "*"
futures = "*"
futures-util = "*"
tokio-tungstenite = "=0.21.0"
tracing = "*"
tracing-subscriber = "*"
