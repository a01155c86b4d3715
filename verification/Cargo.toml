[package]
name = "cargo_sonar"
version = "0.1.0"
edition = "2021"
publish = false

[dependencies]
cargo_metadata = "*"
serde = { version = "*", features = ["derive"] }
serde_json = "*"
