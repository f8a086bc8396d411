[package]
name = "voiceflow"
version = "0.1.0"
edition = "2021"
publish = false

[dependencies]
hound = "3.5"
serde = { version = "1", features = ["derive"] }
serde_json = "1"
log = "0.4"
env_logger = { version = "0.11", default-features = false }
reqwest = { version = "0.12", default-features = false, features = ["json", "multipart", "rustls-tls"] }
tokio = { version = "1", features = ["sync", "rt"] }
cpal = "0.15"
enigo = "0.2"
arboard = { version = "3", default-features = false }
