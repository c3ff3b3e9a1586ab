[package]
name = "mention_bridge"
version = "0.1.0"
edition = "2021"
publish = false

[dependencies]
serde_json = "*"
anyhow = "*"
async-trait = "*"
axum = "0.6"
dotenvy = "*"
reqwest = { version = "*", default-features = false }
slack-rs = "*"
tokio = { version = "*", features = ["rt-multi-thread", "macros"] }
tracing = "*"
tracing-subscriber = "*"
