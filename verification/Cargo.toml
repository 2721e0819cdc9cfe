[package]
name = "treetrace"
version = "0.1.0"
edition = "2021"

[dependencies]
chrono = "*"
rand = { version = "*", features = ["small_rng"] }
tracing = "*"
tracing-subscriber = "*"
