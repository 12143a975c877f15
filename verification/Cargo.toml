[package]
name = "synclip"
version = "0.1.0"
edition = "2021"
publish = false

[dependencies]
clap = { version = "*", features = ["derive"] }
color-eyre = "*"
tokio = { version = "*", features = ["rt-multi-thread", "macros", "sync", "time", "net", "io-util", "signal"] }
tokio-util = "*"
tracing = "*"
tracing-subscriber = "*"
