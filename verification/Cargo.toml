[package]
name = "parietal"
version = "0.1.0"
edition = "2021"
publish = false

[dependencies]
serde_json = { version = "=1.0.151", features = ["preserve_order", "arbitrary_precision"] }
serde = { version = "=1.0.229", features = ["derive"] }
anyhow = "=1.0.104"
log = "=0.4.34"
env_logger = "=0.11.11"
once_cell = "=1.21.4"
figment = { version = "=0.10.19", features = ["toml", "json", "yaml", "env"] }
tokio = { version = "=1.53.2", features = ["rt-multi-thread", "macros", "time", "sync"] }
reqwest = { version = "=0.13.5", default-features = false }
warp = { version = "=0.4.3", features = ["server"] }
juniper = "=0.17.1"
juniper_warp = "=0.9.0"
bigdecimal = { version = "=0.4.11", features = ["serde"] }
