[package]
name = "image_relay"
version = "0.1.0"
edition = "2021"
publish = false

[dependencies]
aes-gcm = "0.10"
anyhow = "1"
axum = { version = "0.7", features = ["multipart"] }
base64 = "0.21"
bytes = "1"
dotenvy = "0.15"
fastrand = "2"
futures = "0.3"
hex = "0.4"
image = { version = "0.24", default-features = false, features = ["png", "jpeg", "gif", "webp"] }
mime_guess = "2"
rand = "0.8"
reqwest = { version = "0.12", default-features = false, features = ["json", "multipart", "rustls-tls"] }
serde = { version = "1", features = ["derive"] }
serde_json = "1"
sha2 = "0.10"
thiserror = "1"
tokio = { version = "1", features = ["full"] }
tower = "0.4"
tower-http = { version = "0.5", features = ["cors", "limit"] }
tracing = "0.1"
tracing-subscriber = "0.3"
uuid = { version = "1", features = ["v4"] }
