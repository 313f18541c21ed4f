[package]
name = "input_simulator"
version = "0.1.0"
edition = "2021"
publish = false

[dependencies]
evdev-rs = "*"
device_query = "*"
serde = { version = "*", features = ["derive"] }
serde_json = "*"
log = "*"
