[package]
name = "actix_async"
version = "0.2.0"
edition = "2021"
publish = false

[dependencies]
actix-rt = "2"
cache-padded = "1"
futures-core = { version = "0.3", default-features = false }
pin-project-lite = "0.2"
spin = "0.9"
tokio = { version = "1", features = ["rt", "time", "macros"] }
