[package]
name = "botdispatch"
version = "0.1.0"
edition = "2021"
publish = false

[dependencies]
dptree = "=0.1.2"
futures = "=0.3.34"
log = "=0.4.34"
takecell = "=0.1.1"
teloxide-core = { version = "=0.4.5", default-features = false, features = ["auto_send"] }
tokio = { version = "=1.54.1", features = ["sync", "rt", "time"] }
tokio-util = { version = "=0.6.10", features = ["codec"] }
