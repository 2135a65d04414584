[package]
name = "dirlist"
version = "0.1.0"
edition = "2021"
publish = false

[dependencies]
chrono = "=0.4.45"
human_bytes = { version = "=0.4.3", default-features = false }
num-traits = "0.2"
terminal_size = "=0.4.4"
