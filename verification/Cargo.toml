[package]
name = "async_scoped"
version = "0.7.0"
edition = "2021"
publish = false

[dependencies]
async-std = "1"
futures = "0.3"
pin-project = "1"
slab = "0.4"
tokio = { version = "1", features = ["rt", "rt-multi-thread", "time"] }
