[package]
name = "ticker_bot"
version = "0.1.0"
edition = "2021"
publish = false

[dependencies]
bigdecimal = "0.4"
serde_json = { version = "1", features = ["arbitrary_precision"] }
serde = { version = "1", features = ["derive"] }
tokio = { version = "1", features = ["rt-multi-thread", "macros", "sync", "time", "fs", "signal"] }
reqwest = "0.11"
serenity = "0.12"
tracing = "0.1"
tracing-subscriber = "0.3"
