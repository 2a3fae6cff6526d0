[package]
name = "async_logging"
version = "0.1.0"
edition = "2021"
publish = false

[dependencies]
chrono = "0.4"
crossbeam-queue = "0.3"
colored = "2"
