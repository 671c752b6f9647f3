[package]
name = "cliptype"
version = "0.1.0"
edition = "2021"
publish = false

[dependencies]
anyhow = "1"
core-foundation = "0.10"
core-graphics = "0.25"
serde = { version = "1", features = ["derive"] }
thiserror = "2"
toml = "0.9"
