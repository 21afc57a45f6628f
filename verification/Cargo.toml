[package]
name = "lean_rs"
version = "0.1.2"
edition = "2021"
publish = false

[dependencies]
libloading = "0.8"
object = "0.37"
tracing = "0.1"
tracing-subscriber = "0.3"
