[package]
name = "blunt"
version = "0.1.0"
edition = "2021"
publish = false

[dependencies]
async-trait = "0.1"
async-tungstenite = { version = "0.13", features = ["tokio-runtime"] }
futures = "0.3"
hyper = { version = "0.14", features = ["server", "http1", "http2", "tcp", "runtime"] }
tokio = { version = "1", features = ["rt", "rt-multi-thread", "macros", "sync", "net"] }
tracing = "0.1"
tracing-futures = "0.2"
uuid = { version = "0.8", features = ["v4"] }
