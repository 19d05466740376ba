[package]
name = "rlless"
version = "0.1.0"
edition = "2021"
publish = false

[dependencies]
memchr = "=2.8.3"
memmap2 = "=0.9.12"
tempfile = "=3.27.0"
tokio = { version = "=1.54.1", features = ["full"] }
async-compression = { version = "=0.4.52", features = ["tokio", "gzip", "bzip2", "xz", "zstd"] }
ratatui = "=0.28.1"
crossterm = { version = "=0.28.1", features = ["event-stream"] }
futures = "=0.3.34"
tokio-util = "=0.7.20"
clap = "=4.6.7"
env_logger = "=0.11.11"
thiserror = "=1.0.69"
parking_lot = "=0.12.5"
async-trait = "=0.1.92"
anyhow = "=1.0.104"
regex = "=1.13.1"

[dev-dependencies]
flate2 = "=1.1.10"
