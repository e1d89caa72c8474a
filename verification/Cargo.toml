[package]
name = "friendolls"
version = "0.1.0"
edition = "2021"
publish = false

[dependencies]
url = "=2.5.8"
base64 = "=0.22.1"
flate2 = "=1.1.10"
gif = "=0.13.3"
image = { version = "=0.25.10", default-features = false, features = ["png"] }
serde = { version = "=1.0.229", features = ["derive"] }
serde_json = "=1.0.154"
keyring = "=3.6.3"
rand = "=0.9.5"
petpet = { version = "=2.4.3", features = ["image"] }
