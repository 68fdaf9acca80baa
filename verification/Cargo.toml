[package]
name = "opsd"
version = "0.1.0"
edition = "2021"
publish = false

[dependencies]
anyhow = "1"
async-trait = "0.1"
bytebuffer = "=2.3.0"
bytes = "~1.9"
chrono = "0.4"
env_logger = "0.10"
futures = "0.3"
futures-util = "0.3"
libc = "0.2"
log = "0.4"
nix = "=0.26.4"
russh = "=0.39.0"
russh-keys = "=0.38.0"
russh-sftp = "=1.2.1"
serde = { version = "1", features = ["derive"] }
serde_json = "1"
tokio = { version = "=1.54.1", features = ["full"] }
tokio-stream = { version = "0.1", features = ["net"] }
warp = "=0.3.7"
