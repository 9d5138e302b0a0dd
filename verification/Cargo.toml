[package]
name = "sockets"
version = "0.1.0"
edition = "2021"
publish = false

[dependencies]
uuid = { version = "1", features = ["v4", "serde"] }
rustls-pemfile = "1"
serde = { version = "1", features = ["derive"] }
serde_json = "1"
tokio = { version = "1", features = ["full"] }
tokio-tungstenite = "0.20"
tokio-util = "0.7"
tokio-rustls = "0.24"
rustls = { version = "0.21", features = ["dangerous_configuration"] }
futures = "0.3"
log = "0.4"
env_logger = "0.10"
clap = { version = "4", features = ["derive"] }
url = "2"
bytes = "1"
thiserror = "1"
anyhow = "1"
