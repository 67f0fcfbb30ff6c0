[package]
name = "vsomeiprs"
version = "0.1.0"
edition = "2021"
publish = false

[dependencies]
bytes = { version = "1", default-features = false }
tokio = { version = "1", default-features = false, features = ["sync"] }
