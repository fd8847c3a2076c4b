[package]
name = "release_flow"
version = "0.1.0"
edition = "2021"
publish = false

[dependencies]
execute = "*"
serde = { version = "*", features = ["derive"] }

[dev-dependencies]
tempfile = "*"
