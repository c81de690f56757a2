[package]
name = "chat_relay"
version = "0.1.0"
edition = "2021"
publish = false

[dependencies]
hex = "=0.4.3"
leaky-bucket = "=1.1.2"
tokio = { version = "=1.54.1", features = ["sync", "net", "io-util", "rt-multi-thread", "macros", "time"] }
