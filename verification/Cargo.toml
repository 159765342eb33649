[package]
name = "datasets"
version = "0.1.0"
edition = "2021"
publish = false

[dependencies]
bytes = "1"
futures-util = "0.3"
hex = "0.4"
md-5 = "0.10"
ndarray = "0.16"
reqwest = { version = "0.12", features = ["stream"] }
url = "2"
