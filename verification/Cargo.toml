[package]
name = "awedio_esp32"
version = "0.1.0"
edition = "2021"
publish = false

[dependencies]
awedio = { version = "*", default-features = false }
