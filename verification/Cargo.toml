[package]
name = "sqlsmith_rs"
version = "0.1.0"
edition = "2021"
publish = false

[dependencies]
rusqlite = "=0.41.0"
chrono = "=0.4.45"
anyhow = "=1.0.104"
log = "=0.4.34"
fern = "=0.7.1"
humantime = "=2.4.0"
serde = { version = "=1.0.229", features = ["derive"] }
serde_json = "=1.0.154"
tokio = { version = "=1.54.1", features = ["rt", "rt-multi-thread", "process", "macros"] }
futures = "=0.3.34"
libc = "=0.2.191"
actix-web = { version = "=4.18.1", default-features = false, features = ["macros"] }
actix-cors = "=0.7.2"
color-eyre = "=0.6.5"
ratatui = "=0.30.2"
limbo = "*"
