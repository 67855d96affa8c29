[package]
name = "airpods_core"
version = "0.1.0"
edition = "2021"
publish = false

[dependencies]
bluer = "*"
log = "*"
tokio = { version = "*", features = ["rt", "rt-multi-thread", "sync", "time", "macros"] }
uuid = "*"
