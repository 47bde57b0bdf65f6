[package]
name = "config_cache_proxy"
version = "0.1.0"
edition = "2021"
publish = false

[dependencies]
urlencoding = "*"
axum = "*"
tokio = { version = "*", features = ["full"] }
reqwest = { version = "*", default-features = false }
deadpool-redis = { version = "*", features = ["rt_tokio_1"] }
serde = { version = "*", features = ["derive"] }
serde_yml = "*"
