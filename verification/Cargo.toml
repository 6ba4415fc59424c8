[package]
name = "app-core"
version = "0.1.0"
edition = "2021"
publish = false

[dependencies]
http-body-util = "0.1"
hyper = { version = "1", features = ["http1", "server"] }
hyper-util = { version = "0.1", features = ["tokio"] }
termion = "*"
tokio = { version = "1", features = ["net", "rt", "rt-multi-thread"] }
