[package]
name = "backend_slot"
version = "0.1.0"
edition = "2021"
publish = false

[dependencies]
rand = "*"
clap = { version = "*", features = ["derive"] }
colored = "*"
serde = { version = "*", features = ["derive"] }
toml = "*"
