[package]
name = "tracert"
version = "0.1.0"
edition = "2021"
publish = false

[dependencies]
ipdb = "=0.1.4"
socket2 = { version = "=0.6.5", features = ["all"] }
tokio = { version = "=1.54.1", features = ["rt", "rt-multi-thread", "net", "time", "sync"] }
iced = { version = "=0.12.1", default-features = false, features = ["tokio"] }
image = { version = "=0.24.9", default-features = false, features = ["ico", "png"] }
anyhow = "=1.0.104"
log = "=0.4.35"
env_logger = { version = "=0.11.11", default-features = false }
serde = { version = "=1.0.229", features = ["derive"] }
