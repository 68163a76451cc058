[package]
name = "pubq_client"
version = "0.1.0"
edition = "2021"
publish = false

[dependencies]
serde_json = { version = "=1.0.154", features = ["preserve_order", "float_roundtrip"] }
serde = { version = "=1.0.229", features = ["derive"] }
tokio = { version = "=1.54.1", features = ["full"] }
tokio-tungstenite = { version = "=0.26.2", features = ["rustls-tls-webpki-roots"] }
rocket = { version = "=0.5.2", features = ["json"] }
rocket_cors = "=0.6.0"
reqwest = { version = "=0.12.28", default-features = false, features = ["rustls-tls"] }
