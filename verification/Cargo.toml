[package]
name = "code_agent_sdk"
version = "0.1.0"
edition = "2021"
publish = false

[dependencies]
tokio = { version = "*", features = ["process", "io-util", "sync", "time", "rt-multi-thread", "macros"] }
futures = "*"
serde_json = "*"
async-trait = "*"
async-stream = "*"
serde = { version = "*", features = ["derive"] }
nix = { version = "*", features = ["user"] }
