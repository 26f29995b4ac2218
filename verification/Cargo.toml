[package]
name = "rskafka"
version = "0.1.0"
edition = "2021"
publish = false

[dependencies]
futures = "0.3"
time = "0.3"
tokio = { version = "1", features = ["macros", "rt", "sync", "time"] }
