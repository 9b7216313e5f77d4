[package]
name = "secular-core"
version = "0.1.0"
edition = "2021"
publish = false

[dependencies]
rand = "0.8"
serde = { version = "1", features = ["derive"] }
serde_json = "1"
tokio = { version = "1", features = ["net", "time", "sync", "rt", "macros", "io-util"] }
rustls = { version = "0.23", default-features = false, features = ["ring", "std", "tls12", "logging"] }
tokio-rustls = { version = "0.26", default-features = false, features = ["ring", "tls12", "logging"] }
h2 = "0.4"
http = "1"
bytes = "1"
webpki-roots = "0.26"
anyhow = "1"
tracing = "0.1"
parking_lot = "0.12"
