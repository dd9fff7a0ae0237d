[package]
name = "single_flight"
version = "0.1.0"
edition = "2021"
publish = false

[dependencies]
tokio = { version = "*", features = ["rt-multi-thread", "time", "macros"] }
openai-api-fork = "*"
