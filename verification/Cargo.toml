[package]
name = "lochan"
version = "0.1.1"
edition = "2021"
publish = false

[dependencies]
futures-core = "0.3"

[dev-dependencies]
futures = "0.3"
