[package]
name = "hyprconnect_core"
version = "0.1.0"
edition = "2021"
publish = false

[dependencies]
anyhow = "1"
async-trait = "0.1"
clap = { version = "4", features = ["derive"] }
dirs = "5"
libc = "0.2"
serde_json = { version = "1", features = ["preserve_order", "arbitrary_precision"] }
tokio = { version = "1", features = ["full"] }
uuid = { version = "1", features = ["v4"] }
