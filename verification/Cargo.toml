[package]
name = "bitcomm"
version = "0.1.0"
edition = "2021"
publish = false

[dependencies]
bytes = "1"
md5 = "*"
tokio = { version = "1", features = ["full"] }
s2n-quic = { version = "1", features = ["provider-event-tracing"] }
tracing = "0.1"
serde = { version = "1", features = ["derive"] }
machine-uid = "*"
lazy_static = "1"
