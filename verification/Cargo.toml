[package]
name = "player_core"
version = "0.1.0"
edition = "2021"
publish = false

[dependencies]
anyhow = "1"
cpal = "0.15"
md5 = "0.7"
rb = "0.4"
serde = { version = "1", features = ["derive"] }
symphonia = { version = "0.5", default-features = false }
tokio = { version = "1", features = ["rt", "sync"] }
tracing = "0.1"
