[package]
name = "p2p_voice"
version = "0.4.0"
edition = "2021"
publish = false

[dependencies]
sha2 = "0.10"
hex = "0.4"
aes-gcm = "0.10"
rand = "0.8"
serde = { version = "1", features = ["derive"] }
serde_json = "1"
ureq = { version = "2", default-features = false, features = ["json", "tls"] }
tungstenite = "0.21"
crossbeam-channel = "0.5"
ringbuf = "0.4"
opus = "0.3"
cpal = "0.15"
self_update = { version = "0.39", default-features = false }
