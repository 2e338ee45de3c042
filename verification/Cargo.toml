[package]
name = "release_gate"
version = "0.1.0"
edition = "2021"
publish = false

[dependencies]
toml = "*"
serde_json = "*"
version-compare = "*"
anyhow = "*"
