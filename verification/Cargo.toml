[package]
name = "volo_core"
version = "0.1.0"
edition = "2021"
publish = false

[dependencies]
async-trait = "*"
futures-util = "*"
http = "*"
http-body-util = "*"
hyper = { version = "*", features = ["server", "http1"] }
hyper-util = { version = "*", features = ["tokio"] }
matchit = "*"
motore = "*"
pilota = "*"
pin-project-lite = "*"
tokio = { version = "*", features = ["net", "rt-multi-thread", "macros"] }
tracing = "*"
