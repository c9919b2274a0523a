[package]
name = "gateway_ws"
version = "0.1.0"
edition = "2021"
publish = false

[dependencies]
async-trait = "0.1"
async-tungstenite = { version = "0.17", default-features = false, features = ["tokio-runtime"] }
flate2 = "1.0"
futures = "0.3"
serde_json = "1"
tokio = { version = "1", features = ["time"] }
tracing = "0.1"
url = "2"
