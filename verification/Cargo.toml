[package]
name = "backend_dispatch"
version = "0.1.0"
edition = "2021"
publish = false

[dependencies]
hyper = { version = "1", default-features = false }
async-trait = "0.1"
tracing = "0.1"
