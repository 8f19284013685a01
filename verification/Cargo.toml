[package]
name = "mountd"
version = "0.1.0"
edition = "2021"
publish = false

[dependencies]
fnv = "1"
urlencoding = "2"
lazy_static = "1"
parking_lot = "0.12"
tokio = { version = "1", features = ["fs", "process", "macros", "rt-multi-thread", "sync"] }
warp = { version = "0.3", default-features = false }
