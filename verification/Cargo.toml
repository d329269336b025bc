[package]
name = "ros2_client"
version = "0.1.0"
edition = "2021"
publish = false

[dependencies]
rustdds = "*"
serde = { version = "1", features = ["derive"] }
futures = "0.3"
mio = "0.6"
