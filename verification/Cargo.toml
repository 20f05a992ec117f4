[package]
name = "tracing_perfetto"
version = "0.1.0"
edition = "2021"
publish = false

[dependencies]
bytes = "*"
chrono = "*"
rand = "*"
tracing = "*"
tracing-subscriber = "*"
