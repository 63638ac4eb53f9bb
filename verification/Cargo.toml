[package]
name = "purgebot"
version = "0.1.0"
edition = "2021"
publish = false

[dependencies]
strsim = "*"
chrono = "*"
serde = { version = "*", features = ["derive"] }
serde_json = "*"
cron = "*"
