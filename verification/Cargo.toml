[package]
name = "countdown"
version = "0.1.0"
edition = "2021"
publish = false

[dependencies]
humantime = "*"
clap = { version = "*", features = ["derive"] }
eyre = "*"
tokio = { version = "*", features = ["rt-multi-thread", "macros", "io-std", "io-util", "time", "sync"] }
