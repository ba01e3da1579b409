[package]
name = "noraproxy"
version = "0.1.0"
edition = "2021"
publish = false

[dependencies]
irc = { version = "*", default-features = false }
redis = "*"
clap = "*"
tokio = { version = "*", features = ["rt-multi-thread", "macros", "time"] }
futures = "*"
