[package]
name = "gleam_cli"
version = "0.1.0"
edition = "2021"
publish = false

[dependencies]
camino = "*"
tracing = "*"
tracing-subscriber = { version = "*", features = ["env-filter"] }
