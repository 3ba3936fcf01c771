[package]
name = "acceptor_pool"
version = "0.1.0"
edition = "2021"
publish = false

[dependencies]
tokio = { version = "1", features = ["net", "time", "sync", "rt", "macros"] }
tokio-openssl = "0.6"
tokio-stream = "0.1"
openssl = "0.10"
tracing = "0.1"
