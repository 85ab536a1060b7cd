[package]
name = "async_as_symmetric_coroutines"
version = "0.1.0"
edition = "2021"
publish = false

[dependencies]
flume = { version = "0.11", default-features = false, features = ["async"] }

[dev-dependencies]
futures-util = { version = "0.3", default-features = false }
pollster = "0.3"
