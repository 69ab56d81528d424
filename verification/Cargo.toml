[package]
name = "sacana"
version = "0.1.0"
edition = "2021"
publish = false

[dependencies]
serde_json = "=1.0.151"
serde = { version = "=1.0.229", features = ["derive"] }
reqwest = { version = "=0.13.5", default-features = false, features = ["blocking", "form"] }
tungstenite = "=0.30.0"
chrono = "=0.4.45"
log = "=0.4.34"
env_logger = "=0.11.11"
