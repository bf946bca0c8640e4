[package]
name = "ffb_replay"
version = "0.1.0"
edition = "2021"
publish = false

[dependencies]
anyhow = "1"
clap = { version = "4", features = ["derive"] }
sdl3-sys = "*"
serde = { version = "1", features = ["derive"] }
serde_yaml = "*"
thiserror = "*"
