[package]
name = "verba"
version = "0.1.0"
edition = "2021"
publish = false

[dependencies]
global-hotkey = "=0.7.0"
serde = { version = "=1.0.229", features = ["derive"] }
serde_json = "=1.0.154"
thiserror = "=2.0.21"
hound = "=3.5.1"
arboard = "=3.7.0"
reqwest = { version = "=0.12.28", features = ["json", "multipart"] }
tokio = { version = "=1.54.1", features = ["time"] }
cpal = "=0.15.3"
