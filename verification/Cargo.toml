[package]
name = "state_store"
version = "0.1.0"
edition = "2021"
publish = false

[dependencies]
data-encoding = "2"
log = "0.4"
tokio = { version = "1", default-features = false, features = ["sync", "rt", "macros"] }
