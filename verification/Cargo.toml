[package]
name = "sniff_proxy"
version = "0.1.0"
edition = "2021"
publish = false

[dependencies]
hyper = "*"
tokio = { version = "*", features = ["rt-multi-thread", "net", "io-util", "macros"] }
