[package]
name = "xtask_common"
version = "0.1.0"
edition = "2021"
publish = false

[dependencies]
anyhow = "=1.0.104"
clap = { version = "=4.6.7", features = ["derive"] }
serde_json = "1"
strum = { version = "=0.26.3", features = ["derive"] }
