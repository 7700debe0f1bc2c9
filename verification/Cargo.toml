[package]
name = "gutp"
version = "0.1.0"
edition = "2021"
publish = false

[dependencies]
anyhow = "1"
bytes = "1"
serde = { version = "1", features = ["derive"] }
spin-sdk = "=2.2.0"
sql-builder = "=3.1.1"
