[package]
name = "abraca"
version = "0.1.0"
edition = "2021"
publish = false

[dependencies]
anyhow = "1"
base64 = "0.21"
chrono = "0.4"
futures = "0.3"
log = "0.4"
reqwest = { version = "0.11", default-features = false, features = ["json", "rustls-tls"] }
ring = "0.17"
serde = { version = "1", features = ["derive"] }
serde_json = "1"
serde_with = "2"
tokio = { version = "1", features = ["macros", "rt", "sync", "net", "time"] }
tokio-tungstenite = { version = "0.18", features = ["rustls-tls-webpki-roots"] }
