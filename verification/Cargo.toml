[package]
name = "cyper_core"
version = "0.1.0"
edition = "2021"
publish = false

[dependencies]
compio = { version = "*", features = ["tls", "io", "rustls"] }
futures-util = { version = "0.3", features = ["io"] }
hyper = "1"
send_wrapper = "0.6"
