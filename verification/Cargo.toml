[package]
name = "auth_service"
version = "0.1.0"
edition = "2021"
publish = false

[dependencies]
argon2 = "*"
async-trait = "*"
axum = "*"
axum-extra = { version = "*", features = ["cookie"] }
rand = "*"
redis = "*"
serde = { version = "*", features = ["derive"] }
serde_json = "*"
sqlx = { version = "*", default-features = false, features = ["runtime-tokio", "postgres"] }
tokio = { version = "*", features = ["full"] }
tower-http = { version = "*", features = ["fs", "cors"] }
uuid = { version = "*", features = ["v4"] }
validator = "*"
