[package]
name = "mditor_ui"
version = "0.1.0"
edition = "2021"
publish = false

[dependencies]
heck = "0.5"
semver = "1"
serde = { version = "1", features = ["derive"] }
serde_json = "1"
anyhow = "1"
