[package]
name = "wechat_pay"
version = "0.1.0"
edition = "2021"
publish = false

[dependencies]
rsa = { version = "=0.9.10", features = ["sha2"] }
sha1 = "=0.10.7"
aes-gcm = "=0.10.3"
base64 = "=0.22.1"
hex = "=0.4.3"
rand = "=0.8.8"
serde = { version = "1", features = ["derive"] }
serde_json = "1"
url = "2"
reqwest = { version = "0.12", default-features = false, features = ["multipart"] }
