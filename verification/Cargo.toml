[package]
name = "datesort"
version = "0.1.0"
edition = "2021"
publish = false

[dependencies]
chrono = "*"
futures = "*"
tokio = { version = "*", features = ["fs", "rt", "rt-multi-thread", "sync", "macros", "time"] }
