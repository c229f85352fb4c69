[package]
name = "micontrol_hw"
version = "0.1.0"
edition = "2021"
publish = false

[dependencies]
sha2 = "0.10"
base64 = "0.22"
hex = "0.4"
aes-gcm = "0.10"
url = "2"
serde = { version = "1", features = ["derive"] }
serde_json = "1"
rand = "0.8"
