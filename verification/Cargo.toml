[package]
name = "starboard"
version = "0.1.0"
edition = "2021"
publish = false

[dependencies]
tokio = { version = "*", features = ["rt-multi-thread", "macros", "signal", "sync", "time"] }
twilight-gateway = "*"
twilight-http = "*"
twilight-model = "*"
