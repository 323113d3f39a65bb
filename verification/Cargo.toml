[package]
name = "rtc_socket"
version = "0.1.0"
edition = "2021"
publish = false

[dependencies]
flume = "*"
futures-util = "0.3"
num_cpus = "1"
once_cell = "1"
serde = { version = "1", features = ["derive"] }
serde_json = "1"
smol = "*"
url = "2"
webrtc-unreliable = "*"
