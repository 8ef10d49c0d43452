[package]
name = "minimint"
version = "0.1.0"
edition = "2021"
publish = false

[dependencies]
hbbft = "*"
rand = "0.6"
futures = "*"
tokio = { version = "*", features = ["macros", "rt", "sync", "time"] }
