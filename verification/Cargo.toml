[package]
name = "leg_motors"
version = "0.1.0"
edition = "2021"
publish = false

[dependencies]
embedded-can = "0.4"
socketcan = { version = "3", features = ["tokio"] }
tokio = { version = "1", features = ["rt-multi-thread", "macros", "sync", "time"] }
futures-util = { version = "0.3", features = ["sink"] }
async-trait = "0.1"
anyhow = "1"
serde = { version = "1", features = ["derive"] }
serde_yaml = "0.9"
ros2-client = "0.8"
