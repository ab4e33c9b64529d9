[package]
name = "chores"
version = "0.1.0"
edition = "2021"
publish = false

[dependencies]
chrono = "0.4"
chrono-tz = "*"
anyhow = "1"
axum = "*"
clap = { version = "4", features = ["derive"] }
dotenvy = "*"
serde = { version = "1", features = ["derive"] }
tokio = { version = "1", features = ["rt", "rt-multi-thread", "macros", "net"] }
toml = "*"
