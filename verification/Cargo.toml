[package]
name = "api_temple"
version = "0.1.0"
edition = "2021"
publish = false

[dependencies]
jsonwebtoken = "9"
serde = { version = "1", features = ["derive"] }
serde_json = { version = "1", features = ["preserve_order"] }
bcrypt = "0.15"
chrono = "0.4"
rand = "0.8"
uuid = { version = "1", features = ["v4"] }
base64 = "0.21"
axum = { version = "0.7", features = ["multipart"] }
tokio = { version = "1", features = ["full"] }
tower-http = { version = "0.5", features = ["cors", "trace"] }
tracing = "0.1"
tracing-subscriber = { version = "0.3", features = ["env-filter"] }
tracing-appender = "0.2"
sqlx = { version = "0.7", default-features = false, features = ["postgres", "runtime-tokio"] }
reqwest = { version = "0.12", default-features = false, features = ["multipart", "json"] }
log = "0.4"
