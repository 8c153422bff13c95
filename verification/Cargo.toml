[package]
name = "snowpatch_config"
version = "0.1.0"
edition = "2021"
publish = false

[dependencies]
anyhow = "1"
ron = "0.8"
serde = { version = "1", features = ["derive"] }
url = "2"
