[package]
name = "auth_service"
version = "0.1.0"
edition = "2021"
publish = false

[dependencies]
validator = "*"
argon2 = { version = "*", features = ["std"] }
uuid = { version = "*", features = ["v4"] }
rand = "*"
hmac = "*"
sha2 = "*"
serde = { version = "*", features = ["derive"] }
serde_json = "*"
tokio = { version = "*", features = ["full"] }
axum = "*"
axum-extra = { version = "*", features = ["cookie"] }
tower-http = { version = "*", features = ["fs", "cors"] }
