[package]
name = "ktra_config"
version = "0.1.0"
edition = "2021"
publish = false

[dependencies]
anyhow = "*"
futures = "*"
tokio = { version = "*", default-features = false, features = ["fs", "io-util"] }
toml = "*"
