[package]
name = "vrc_osc"
version = "0.1.0"
edition = "2021"
publish = false

[dependencies]
rosc = "*"
log = "0.4"
env_logger = "*"
tokio = { version = "1", features = ["rt-multi-thread", "macros", "sync", "time"] }
serde = { version = "1", features = ["derive"] }
toml = "*"
poise = "0.6"
