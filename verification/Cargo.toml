[package]
name = "auth_api"
version = "0.1.0"
edition = "2021"
publish = false

[dependencies]
axum = "=0.8.9"
axum-cookie = "=0.3.0"
bcrypt = "=0.17.1"
chrono = "=0.4.45"
dotenvy = "=0.15.7"
jsonwebtoken = "=9.3.1"
sea-orm = { version = "=1.1.20", default-features = false, features = ["sqlx-postgres", "runtime-tokio-rustls", "macros", "with-uuid", "with-chrono"] }
serde = { version = "=1.0.229", features = ["derive"] }
serde_json = { version = "=1.0.154", features = ["preserve_order"] }
tokio = { version = "=1.54.1", features = ["full"] }
uuid = { version = "=1.29.0", features = ["v4"] }
validator = { version = "=0.20.0", features = ["derive"] }
