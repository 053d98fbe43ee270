[package]
name = "wininet"
version = "0.1.0"
edition = "2021"

[dependencies]
winapi = { version = "0.3", features = ["wininet", "minwindef"] }
