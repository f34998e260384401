[package]
name = "hb-auth"
version = "0.1.0"
edition = "2021"
publish = false

[dependencies]
base64 = "0.22"
js-sys = "0.3"
rsa = { version = "0.9", features = ["sha2"] }
serde = { version = "1", features = ["derive"] }
serde_json = "1"
worker = "*"
