[package]
name = "screen_recorder"
version = "0.1.0"
edition = "2021"
publish = false

[dependencies]
url = "*"
anyhow = "*"
clap = { version = "*", features = ["derive"] }
env_logger = "*"
log = "*"
scrap = "*"
tokio = { version = "*", features = ["macros", "rt-multi-thread", "time"] }
