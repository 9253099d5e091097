[package]
name = "paste_service"
version = "0.1.0"
edition = "2021"
publish = false

[dependencies]
ammonia = "4"
askama = "0.12"
askama_axum = "0.4"
axum = "0.7"
blake3 = { version = "1", features = ["pure"] }
chrono = { version = "0.4", features = ["serde"] }
env_logger = "0.11"
log = "0.4"
nanoid = "0.4"
pulldown-cmark = "0.10"
serde = { version = "1", features = ["derive"] }
sled = { version = "0.34", features = ["compression"] }
syntect = { version = "5", default-features = false, features = ["default-fancy"] }
thiserror = "1"
tokio = { version = "1", features = ["full"] }
tower-http = { version = "0.5", features = ["fs"] }

[dev-dependencies]
bincode = "1"
