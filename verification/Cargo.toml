[package]
name = "chip8"
version = "0.1.0"
edition = "2021"
publish = false

[dependencies]
rand = "0.8"
winapi = { version = "0.3", features = ["utilapiset", "winuser"] }
