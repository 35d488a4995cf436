[package]
name = "legacy_guard"
version = "0.1.0"
edition = "2021"
publish = false

[dependencies]
charms-sdk = "*"
ciborium = "*"
serde = { version = "1", features = ["derive"] }
