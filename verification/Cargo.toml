[package]
name = "kthg"
version = "0.1.0"
edition = "2021"
publish = false

[dependencies]
actix-web = "=4.15.0"
actix-ws = "=0.4.0"
base64 = "=0.23.1"
clap = { version = "=4.6.7", features = ["derive"] }
deadpool = "=0.13.1"
deadpool-postgres = "=0.14.2"
derive_more = { version = "=2.1.1", features = ["display"] }
env_logger = "=0.11.11"
futures-util = "=0.3.34"
log = "=0.4.34"
serde = { version = "=1.0.229", features = ["derive"] }
serde_json = "=1.0.151"
tokio = { version = "=1.53.2", features = ["macros", "rt", "time"] }
tokio-postgres = "=0.7.18"
tokio-stream = "=0.1.19"
