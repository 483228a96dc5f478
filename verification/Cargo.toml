[package]
name = "cdesktop"
version = "0.2.3"
edition = "2021"
publish = false

[dependencies]
axum = { version = "0.8", default-features = false, features = ["json"] }
chrono = { version = "0.4", features = ["serde"] }
dirs = "*"
serde = { version = "1", features = ["derive"] }
serde_json = "1"
sqlx = { version = "0.8", default-features = false, features = ["runtime-tokio", "sqlite"] }
tracing = "0.1"
ts-rs = { version = "*", features = ["chrono-impl"] }
uuid = { version = "1", features = ["v4", "serde"] }
