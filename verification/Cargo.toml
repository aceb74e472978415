[package]
name = "ractor"
version = "0.8.0"
edition = "2021"
publish = false

[dependencies]
async-trait = "0.1"
futures = "0.3"
log = "0.4"
notify = "6"
tokio = { version = "1", features = ["rt", "rt-multi-thread", "sync", "time", "macros"] }
