[package]
name = "tmq"
version = "0.2.0"
edition = "2021"
publish = false

[dependencies]
zmq = "0.10"
futures = "0.1"
tokio = { version = "0.1", default-features = false, features = ["reactor"] }
mio = "0.6"
failure = "0.1"
