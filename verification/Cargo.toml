[package]
name = "twitch_api2"
version = "0.1.0"
edition = "2021"
publish = false

[dependencies]
http = "*"
serde_json = "*"
hmac = "*"
sha2 = "*"
