[package]
name = "eutopic_api"
version = "0.1.0"
edition = "2021"
publish = false

[dependencies]
actix = "0.13"
actix-web = "4"
actix-cors = "0.6"
bolt-client = { version = "0.11", features = ["tokio-stream"] }
bolt-proto = "0.12"
borsh = "0.10"
chrono = "0.4"
dotenv = "0.15"
env_logger = "0.10"
eyre = "0.6"
fireauth = "*"
futures-util = "0.3"
serde = { version = "1", features = ["derive"] }
thiserror = "1"
tokio = { version = "1", features = ["full"] }
tokio-util = { version = "0.7", features = ["compat"] }
