[package]
name = "grading_harness"
version = "0.1.0"
edition = "2021"
publish = false

[dependencies]
tokio = { version = "1", features = ["rt-multi-thread"] }
tokio-postgres = { version = "0.7" }
