[package]
name = "rowheel"
version = "0.1.0"
edition = "2021"
publish = false

[dependencies]
anyhow = "1"
crossbeam-channel = "0.5"
evdev = "*"
libc = "0.2"
log = "0.4"
env_logger = "*"
serde = { version = "1", features = ["derive"] }
serde_json = "1"
