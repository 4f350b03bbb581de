[package]
name = "whisrs"
version = "0.1.0"
edition = "2021"
publish = false

[dependencies]
anyhow = "1"
dirs = "*"
reqwest = { version = "0.12", default-features = false, features = ["multipart"] }
serde = { version = "1", features = ["derive"] }
serde_json = "1"
swayipc = "3"
tokio = { version = "1", features = ["process", "time", "rt", "sync", "macros"] }
tracing = "0.1"
x11rb = "0.13"
zbus = "*"
