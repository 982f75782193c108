[package]
name = "dns_crawler"
version = "0.1.0"
edition = "2021"
publish = false

[dependencies]
rand = "=0.8.8"
env_logger = "=0.10.2"
log = "=0.4.34"
tokio = { version = "=1.54.1", features = ["sync", "time", "macros", "rt", "net"] }
thiserror = "=1.0.69"
parity-scale-codec = { version = "=3.7.5", features = ["derive"] }
