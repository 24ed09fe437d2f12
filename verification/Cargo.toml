[package]
name = "yral_metadata"
version = "0.1.0"
edition = "2021"
publish = false

[dependencies]
candid = "*"
jsonwebtoken = "=9.3.1"
serde_json = "*"
serde = { version = "*", features = ["derive"] }
tokio = { version = "*", features = ["full"] }
redis = { version = "*", features = ["tokio-comp"] }
bb8 = "*"
bb8-redis = "*"
futures = "*"
log = "*"
env_logger = "*"
thiserror = "*"
clap = { version = "*", features = ["derive"] }

[dev-dependencies]
ed25519-dalek = { version = "=2.2.0", features = ["pkcs8", "pem", "rand_core"] }
rand = "=0.8.8"
