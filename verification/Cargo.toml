[package]
name = "whatssock"
version = "0.1.0"
edition = "2021"
publish = false

[dependencies]
anyhow = "1"
axum = { version = "0.8", features = ["ws"] }
chrono = { version = "0.4", features = ["serde"] }
dashmap = "6"
diesel = { version = "2", features = ["postgres", "r2d2", "chrono"] }
dotenvy = "0.15"
env_logger = "0.11"
futures-util = "0.3"
log = "0.4"
parking_lot = "0.12"
r2d2 = "0.8"
rand = "0.9"
reqwest = "0.12"
rmp-serde = "1"
serde = { version = "1", features = ["derive"] }
serde_json = "1"
tokio = { version = "1", features = ["full"] }
tokio-tungstenite = "*"
tokio-util = "0.7"
