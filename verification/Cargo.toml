[package]
name = "responses_relay"
version = "0.1.0"
edition = "2021"
publish = false

[dependencies]
axum = { version = "=0.7.9", default-features = false, features = ["ws"] }
futures-util = "0.3"
reqwest-websocket = "=0.6.0"
serde_json = "=1.0.154"
tokio = { version = "1", features = ["macros"] }
