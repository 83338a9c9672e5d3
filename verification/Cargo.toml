[package]
name = "rwarden"
version = "0.1.0"
edition = "2021"
publish = false

[dependencies]
aes = "=0.7.5"
base32 = "*"
base64 = "0.13"
block-modes = "0.8"
generic-array = "0.14"
hkdf = "0.12"
hmac = "0.12"
pbkdf2 = "0.12"
rand = "0.8"
rsa = "0.9"
serde = { version = "1", features = ["derive"] }
serde_json = "1"
sha1 = "0.10"
sha2 = "0.10"
totp-lite = "2"
url = "2"
