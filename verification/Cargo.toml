[package]
name = "run_in_roblox"
version = "0.1.0"
edition = "2021"
publish = false

[dependencies]
anyhow = "*"
async-channel = "*"
axum = "*"
clap = { version = "*", features = ["derive"] }
colored = "*"
env_logger = "*"
fs-err = "*"
log = "*"
roblox_install = "*"
serde = { version = "*", features = ["derive"] }
tokio = { version = "*", features = ["full"] }
