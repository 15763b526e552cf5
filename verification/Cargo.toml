[package]
name = "roshar"
version = "0.1.0"
edition = "2021"
publish = false

[dependencies]
chrono = "=0.4.45"
serde = { version = "=1.0.229", features = ["derive"] }
serde_json = "=1.0.154"
tokio = { version = "=1.54.1", features = ["full"] }
tokio-tungstenite = { version = "=0.26.2", features = ["rustls-tls-webpki-roots"] }
tokio-util = "=0.7.20"
futures-util = "=0.3.34"
anyhow = "=1.0.104"
log = "=0.4.35"
async-trait = "=0.1.92"
url = "=2.5.8"
rand = "=0.8.8"
rust_decimal = "=1.43.0"
reqwest = { version = "=0.12.28", default-features = false, features = ["json", "rustls-tls"] }
rmp-serde = "=1.3.1"
sha3 = "=0.10.9"
