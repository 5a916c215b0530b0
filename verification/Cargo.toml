[package]
name = "control_plane"
version = "0.1.0"
edition = "2021"
publish = false

[dependencies]
anyhow = "1"
chrono = "0.4"
curl = "0.4"
env_logger = "*"
log = "0.4"
prost = "*"
prost-types = "*"
proxy-wasm = "*"
ring = "0.17"
serde = { version = "1", features = ["derive"] }
serde_json = "1"
tokio = { version = "1", features = ["rt-multi-thread", "macros", "time", "sync"] }
tonic = "*"
url = "2"
warp = "0.3"
