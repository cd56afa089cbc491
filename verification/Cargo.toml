[package]
name = "playback_proxy"
version = "0.1.0"
edition = "2021"
publish = false

[dependencies]
axum = "0.7"
chrono = "0.4"
dotenv = "0.15"
image = "0.24"
lambda_http = "0.13"
log = "0.4"
once_cell = "1"
reqwest = "0.12"
rspotify = "0.13"
serde = { version = "1", features = ["derive"] }
serde_json = "1"
tokio = { version = "1", features = ["macros", "rt-multi-thread"] }
