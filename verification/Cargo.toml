[package]
name = "auth"
version = "0.1.0"
edition = "2021"
publish = false

[dependencies]
prost = "=0.12.6"
bytes = "=1.12.1"
axum = "=0.7.9"
axum-extra = { version = "=0.9.6", features = ["protobuf"] }
reqwest = { version = "=0.12.28", default-features = false }
redis = { version = "=0.25.5", default-features = false, features = ["aio", "tokio-comp"] }
serde = { version = "=1.0.229", features = ["derive"] }
sqlx = { version = "=0.7.4", default-features = false, features = ["postgres", "runtime-tokio"] }
mongodb = "=2.8.2"
