[package]
name = "arcpanel"
version = "0.1.0"
edition = "2021"
publish = false

[dependencies]
sha2 = "=0.10.9"
hex = "=0.4.3"
base64 = "=0.22.1"
ciborium = "=0.2.2"
p256 = { version = "=0.13.2", features = ["ecdsa"] }
rand = "=0.9.5"
uuid = { version = "=1.29.0", features = ["v4", "serde"] }
url = "=2.5.8"
subtle = "=2.6.1"
serde = { version = "=1.0.229", features = ["derive"] }
serde_json = { version = "=1.0.154", features = ["preserve_order"] }
urlencoding = "=2.1.3"
argon2 = "=0.5.3"
jsonwebtoken = "=9.3.1"
chrono = { version = "=0.4.45", default-features = false, features = ["std", "clock", "serde"] }
