[package]
name = "forgegraph"
version = "0.1.0"
edition = "2021"
publish = false

[dependencies]
dirs = "6"
reqwest = { version = "0.12", default-features = false, features = ["json", "rustls-tls"] }
serde = { version = "1", features = ["derive"] }
serde_json = "1"
sqlx = { version = "0.8", default-features = false, features = ["runtime-tokio", "sqlite", "derive"] }
urlencoding = "2"
