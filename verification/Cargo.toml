[package]
name = "chiaro"
version = "0.1.0"
edition = "2021"
publish = false

[dependencies]
serde = { version = "=1.0.229", features = ["derive"] }
toml = "=1.1.8"
config = { version = "=0.15.27", default-features = false, features = ["toml"] }
serde_yaml_ng = "*"
