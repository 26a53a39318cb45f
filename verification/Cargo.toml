[package]
name = "app_core"
version = "0.1.0"
edition = "2021"
publish = false

[dependencies]
aes-gcm = "=0.11.1"
rand = "=0.10.3"
uuid = { version = "=1.29.1", features = ["v4", "v7"] }
sha2 = "=0.11.1"
serde = { version = "=1.0.229", features = ["derive"] }
serde_json = "=1.0.154"
thiserror = "=2.0.21"
anyhow = "=1.0.104"
log = "=0.4.35"
env_logger = "=0.11.11"
tokio = { version = "=1.54.1", features = ["rt", "macros", "sync"] }
chrono = "=0.4.45"
flate2 = "*"

[dev-dependencies]
jsonwebtoken = { version = "*", default-features = false, features = ["rust_crypto"] }
