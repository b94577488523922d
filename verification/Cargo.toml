[package]
name = "auto_action"
version = "0.1.0"
edition = "2021"
publish = false

[dependencies]
chrono = "0.4"
clap = { version = "4", features = ["derive"] }
enigo = "0.1"
mouse_position = "0.1"
serde = { version = "1", features = ["derive"] }
toml = "0.8"
