[package]
name = "auth_service"
version = "0.1.0"
edition = "2021"
publish = false

[dependencies]
argon2 = "=0.5.3"
rand = "=0.10.3"
uuid = { version = "=1.27.0", features = ["v4"] }
sha2 = "=0.10.9"
serde = { version = "=1.0.229", features = ["derive"] }
tokio = { version = "=1.53.2", features = ["full"] }
axum = "=0.8.9"
axum-extra = { version = "=0.12.6", features = ["cookie"] }
tower-http = { version = "=0.7.1", features = ["fs"] }
async-trait = "=0.1.92"
dotenvy = "=0.15.7"
redis = "=1.7.1"
sqlx = { version = "=0.9.0", default-features = false, features = ["runtime-tokio", "postgres"] }
