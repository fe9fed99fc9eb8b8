[package]
name = "vane_core"
version = "0.1.0"
edition = "2021"
publish = false

[dependencies]
sha2 = "=0.10.9"
regex = "=1.13.1"
serde = { version = "=1.0.229", features = ["derive"] }
serde_json = "=1.0.154"
hickory-resolver = { version = "=0.26.3", default-features = false, features = ["tokio", "tls-ring"] }
reqwest = { version = "=0.13.5", default-features = false, features = ["rustls-no-provider", "socks", "http2"] }
# app/ only: reqwest and hickory are built without a TLS crypto provider,
# so app/main.rs installs rustls' ring provider before making connections.
rustls = { version = "=0.23.46", default-features = false, features = ["ring", "std"] }
tokio = { version = "=1.54.1", features = ["rt-multi-thread", "macros", "net", "time", "sync", "process", "io-util"] }
futures = "=0.3.34"
bytes = "=1.12.1"
libc = "=0.2.191"
