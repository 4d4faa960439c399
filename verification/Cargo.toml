[package]
name = "lennard_workflow"
version = "0.1.0"
edition = "2021"
publish = false

[dependencies]
uuid = { version = "=1.27.0", features = ["v4"] }
chrono = "=0.4.45"
base64 = "=0.22.1"
md5 = "=0.7.0"
regex = "=1.13.1"
serde = { version = "1", features = ["derive"] }
serde_json = "1"
clap = "4"
log = "0.4"
env_logger = "0.11"
once_cell = "1"
thiserror = "1"
reqwest = { version = "0.12", default-features = false, features = ["blocking", "json", "multipart", "rustls-tls"] }
