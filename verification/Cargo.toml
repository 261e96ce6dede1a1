[package]
name = "notch_hook"
version = "0.1.0"
edition = "2021"
publish = false

[dependencies]
anyhow = "*"
clap = { version = "*", features = ["derive"] }
dirs = "*"
hex = "*"
serde = { version = "*", features = ["derive"] }
serde_json = "*"
sha2 = "*"
similar = "*"
