[package]
name = "ntex_core"
version = "0.1.0"
edition = "2021"
publish = false

[dependencies]
flate2 = "1"
brotli2 = "0.3"
actix-threadpool = "0.3"
futures = "0.3"
