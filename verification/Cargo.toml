[package]
name = "echoinput"
version = "0.1.0"
edition = "2021"
publish = false

[dependencies]
anyhow = "1"
dirs = "*"
humantime = "2"
log = "0.4"
open = "5"
serde = { version = "1", features = ["derive"] }
serde_json = "1"
