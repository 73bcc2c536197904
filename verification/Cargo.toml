[package]
name = "game_test"
version = "0.1.0"
edition = "2021"
publish = false

[dependencies]
fixed = { version = "=1.31.0", features = ["serde"] }
serde = { version = "=1.0.229", features = ["derive"] }
ron = "*"
clap = { version = "4", features = ["derive"] }
