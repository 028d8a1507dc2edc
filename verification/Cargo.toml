[package]
name = "bittorrent_bot"
version = "0.1.0"
edition = "2021"
publish = false

[dependencies]
anyhow = "=1.0.104"
async-trait = "=0.1.92"
bytes = "=1.12.1"
config = "=0.14.1"
dotenvy = "=0.15.7"
env_logger = "=0.11.11"
log = "=0.4.34"
reqwest = { version = "=0.12.28", features = ["cookies", "multipart"] }
serde = { version = "=1.0.229", features = ["derive"] }
telers = "=1.0.0-beta.10"
tokio = { version = "=1.54.1", features = ["macros", "rt-multi-thread", "sync"] }
