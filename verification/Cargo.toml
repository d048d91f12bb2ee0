[package]
name = "poolcar"
version = "0.1.0"
edition = "2021"
publish = false

[dependencies]
argon2 = { version = "=0.5.3", features = ["std"] }
csv = "=1.4.0"
chrono = { version = "=0.4.45", default-features = false, features = ["std", "clock"] }
anyhow = "=1.0.104"
clap = { version = "=4.6.7", features = ["derive"] }
dotenvy = "=0.15.7"
jsonwebtoken = "=9.3.1"
serde = { version = "=1.0.229", features = ["derive"] }
serde_json = { version = "=1.0.154", features = ["preserve_order"] }
haversine-rs = "=0.3.0"
axum = "=0.8.9"
tokio = { version = "=1.54.1", features = ["full"] }
thiserror = "=2.0.21"
