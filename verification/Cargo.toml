[package]
name = "twilight_bark"
version = "0.1.0"
edition = "2021"
publish = false

[dependencies]
anyhow = "1"
chrono = "0.4"
clap = { version = "4", features = ["derive", "env"] }
dashmap = "6"
env_logger = "0.11"
futures = "0.3"
gray_matter = "0.2"
log = "0.4"
prost = "0.13"
serde = { version = "1", features = ["derive"] }
serde_json = "1"
tokio = { version = "1", features = ["full"] }
toml = "0.8"
uuid = { version = "1", features = ["v4"] }
walkdir = "2"
zenoh = { version = "1", default-features = false, features = ["transport_tcp"] }
