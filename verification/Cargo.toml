[package]
name = "ms_executor"
version = "0.1.0"
edition = "2021"
publish = false

[dependencies]
axum = "0.7"
http-body-util = "0.1"
hyper = { version = "1", features = ["server", "http1", "http2"] }
hyper-util = { version = "0.1", features = ["tokio", "server-auto", "server-graceful", "http1", "http2"] }
mimalloc = "0.1"
prost = "0.13"
tokio = { version = "1", features = ["full"] }
tonic = "0.12"
tower = "0.4"
tracing = "0.1"
tracing-subscriber = { version = "0.3", features = ["env-filter"] }
uuid = { version = "1", features = ["v4"] }
