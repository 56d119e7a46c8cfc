[package]
name = "hello_service"
version = "0.1.0"
edition = "2021"
publish = false

[dependencies]
futures = "0.3"
prost = "0.12"
prost-types = "0.12"
tokio = { version = "1", features = ["macros", "rt-multi-thread", "sync", "time"] }
tokio-stream = "0.1"
tonic = "0.11"
tonic-reflection = "0.11"
