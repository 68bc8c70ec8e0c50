[package]
name = "sway_scratchpad"
version = "0.1.0"
edition = "2021"
publish = false

[dependencies]
ksway = "*"
async-process = "*"
clap = { version = "4", features = ["derive"] }
serde_json = "1"
