[package]
name = "syncer"
version = "0.1.0"
edition = "2021"
publish = false

[dependencies]
anki = "*"
tokio = { version = "1", features = ["rt", "macros"] }
tracing = "0.1"
