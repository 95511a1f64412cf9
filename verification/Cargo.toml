[package]
name = "vigilant-vole"
version = "0.1.0"
edition = "2021"
publish = false

[dependencies]
argon2 = "*"
askama = "*"
axum = "*"
axum-extra = { version = "*", features = ["cookie-signed"] }
deadpool-sqlite = "*"
reqwest = { version = "0.12", features = ["json"] }
rusqlite = "*"
rust-embed = "*"
serde = { version = "1", features = ["derive"] }
serde_json = "1"
surge-ping = "*"
tokio = { version = "1", features = ["full"] }
tokio-stream = { version = "*", features = ["sync"] }
tracing = "0.1"
tracing-subscriber = "0.3"
