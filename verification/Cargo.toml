[package]
name = "multicast_relay"
version = "0.1.0"
edition = "2021"
publish = false

[dependencies]
aes-gcm = "0.9"
base64 = "0.21"
rand = "0.8"
regex = "1"
network-interface = "1"
serde = { version = "1", features = ["derive"] }
serde_json = "1"
