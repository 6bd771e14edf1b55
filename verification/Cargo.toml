[package]
name = "market_feed"
version = "0.1.0"
edition = "2021"
publish = false

[dependencies]
anyhow = "1"
async-tungstenite = { version = "0.25", features = ["tokio-runtime", "tokio-rustls-webpki-roots"] }
bytes = "1"
chrono = "0.4"
fastwebsockets = { version = "0.7", features = ["upgrade"] }
futures = "0.3"
hex = "0.4"
hmac = "0.12"
http-body-util = "0.1"
hyper = { version = "1", features = ["client", "http1"] }
hyper-util = { version = "0.1", features = ["tokio"] }
reqwest = { version = "0.12", default-features = false, features = ["rustls-tls", "json"] }
serde = { version = "1", features = ["derive"] }
serde_json = "1"
sha2 = "0.10"
sonic-rs = "0.3"
tokio = { version = "1", features = ["full"] }
tokio-rustls = "0.24"
webpki-roots = "0.23"
