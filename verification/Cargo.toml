[package]
name = "zebrad_config"
version = "0.1.0"
edition = "2021"
publish = false

[dependencies]
serde = { version = "1", features = ["derive"] }
config = { version = "0.15", default-features = false, features = ["toml"] }
