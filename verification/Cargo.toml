[package]
name = "python_finder"
version = "0.1.0"
edition = "2021"
publish = false

[dependencies]
regex = "1.10"
serde = { version = "1.0", features = ["derive"] }
serde_json = "1.0"
log = "0.4"
env_logger = "0.10"
winreg = "0.52"
