[package]
name = "pomodoro"
version = "0.1.0"
edition = "2021"
publish = false

[dependencies]
anyhow = "*"
async-signals = "*"
async-std = { version = "*", features = ["unstable"] }
backtrace = "*"
clap = { version = "*", features = ["derive"] }
crossterm = { version = "*", features = ["event-stream"] }
dynfmt = { version = "*", features = ["curly"] }
humantime = "*"
libc = "*"
notify-rust = "*"
