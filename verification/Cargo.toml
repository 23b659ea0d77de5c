[package]
name = "kiteconnect"
version = "0.3.0"
edition = "2021"
publish = false

[dependencies]
byteorder = "1"
chrono = { version = "0.4", features = ["serde"] }
csv = "1"
log = "0.4"
reqwest = { version = "0.12", default-features = false, features = ["blocking", "json"] }
rust-crypto = "0.2"
serde = "1"
serde_derive = "1"
serde_json = "1"
url = "2"
ws = "0.9"
