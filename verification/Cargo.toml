[package]
name = "uptime_rs"
version = "0.1.0"
edition = "2021"
publish = false

[dependencies]
askama = "0.12"
askama_rocket = "0.12"
async-trait = "0.1"
chrono = "0.4"
dotenv = "0.15"
rand = "0.8"
reqwest = { version = "0.11", default-features = false, features = ["rustls-tls"] }
rocket = "0.5"
rocket_async_compression = "*"
serde = { version = "1", features = ["derive"] }
serde_json = "1"
sqlx = { version = "0.7", default-features = false, features = ["runtime-tokio", "sqlite", "migrate"] }
tokio = { version = "1", features = ["rt-multi-thread", "macros", "time"] }
