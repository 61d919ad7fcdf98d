[package]
name = "optee_core"
version = "0.1.0"
edition = "2021"
publish = false

[dependencies]
ring = "0.17"
serde = { version = "1", features = ["derive"] }
serde_json = "1"
bincode = "1"
anyhow = "1"
cargo_metadata = "0.18"
toml = "0.8"
