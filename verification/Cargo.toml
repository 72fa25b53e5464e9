[package]
name = "cbat"
version = "0.1.0"
edition = "2021"
publish = false

[dependencies]
chrono = "0.4"
jsonwebtoken = "9"
rand = "0.8"
reqwest = { version = "0.12", default-features = false, features = ["json", "rustls-tls"] }
sec1 = { version = "0.7", features = ["alloc", "pem", "pkcs8"] }
serde = { version = "1", features = ["derive"] }
serde_json = "1"
