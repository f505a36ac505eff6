[package]
name = "sensor_feed"
version = "0.1.0"
edition = "2021"
publish = false

[dependencies]
chrono = "*"
getopts = "*"
serde = { version = "*", features = ["derive"] }
serde_yaml = "*"
