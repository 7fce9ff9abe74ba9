[package]
name = "eventsub_bridge"
version = "0.1.0"
edition = "2021"
publish = false

[dependencies]
axum = { version = "*", features = ["multipart", "macros"] }
axum-extra = { version = "*", features = ["cookie-private"] }
hmac = "0.12"
reqwest = { version = "0.12", default-features = false, features = ["json", "rustls-tls"] }
serde = { version = "1", features = ["derive"] }
serde_json = "1"
sha2 = "0.10"
shuttle-axum = "*"
shuttle-runtime = "*"
tera = { version = "1", default-features = false }
