[package]
name = "ssctl"
version = "0.1.0"
edition = "2021"
publish = false

[dependencies]
serde_json = "=1.0.151"
shadowsocks = { version = "=1.25.0", features = ["aead-cipher-2022"] }
shadowsocks-service = { version = "=1.25.0", features = ["local", "aead-cipher-2022"] }
tokio = { version = "=1.53.2", features = ["sync", "rt-multi-thread", "macros"] }
log = "=0.4.34"
env_logger = "=0.11.11"
