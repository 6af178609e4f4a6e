[package]
name = "beatble"
version = "0.1.0"
edition = "2021"
publish = false

[dependencies]
crossbeam = "=0.8.5"
nix = { version = "=0.31.3", features = ["fs", "ioctl"] }
tokio = { version = "=1.53.2", features = ["full"] }
futures = "=0.3.34"
bluster = "=0.2.0"
uuid = "=0.8.2"
clap = { version = "=4.6.7", features = ["derive"] }
log = "=0.4.34"
env_logger = "=0.11.11"
eyre = "=0.6.14"
