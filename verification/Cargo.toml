[package]
name = "mirrord-layer"
version = "0.1.0"
edition = "2021"
publish = false

[dependencies]
tokio = { version = "1", features = ["sync", "net", "io-util", "time", "rt", "macros"] }
tokio-stream = "0.1"
futures = "0.3"
actix-codec = "0.5"
tracing = "0.1"
thiserror = "1"
bincode = "2"
dns-lookup = "1"
