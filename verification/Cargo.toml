[package]
name = "search_flusher"
version = "0.1.0"
edition = "2021"
publish = false

[dependencies]
anyhow = "*"
futures = "*"
governor = "*"
tempfile = "*"
tracing = "*"
