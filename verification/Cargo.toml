[package]
name = "rust_auth"
version = "0.1.0"
edition = "2021"
publish = false

[dependencies]
axum = { version = "=0.6.20", features = ["headers"] }
chrono = "=0.4.45"
hyper = { version = "=0.14.32", features = ["full"] }
jsonwebtoken = "=8.3.0"
serde = { version = "=1.0.229", features = ["derive"] }
serde_json = { version = "=1.0.154", features = ["preserve_order"] }
thiserror = "=1.0.69"
tokio = { version = "=1.54.1", features = ["full"] }
totp-rs = { version = "=5.7.2", features = ["qr", "gen_secret"] }
