[package]
name = "xtask"
version = "0.1.0"
edition = "2021"
publish = false

[dependencies]
pico-args = "0.5"
regex = "1"
serde = { version = "1", features = ["derive"] }
