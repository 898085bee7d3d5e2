[package]
name = "mqttsn_client"
version = "0.1.0"
edition = "2021"
publish = false

[dependencies]
mqtt-sn = "*"
byte = "*"
heapless = "*"
tokio = { version = "*", features = ["full"] }
log = "*"
env_logger = "*"
