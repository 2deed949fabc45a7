[package]
name = "chrometracer"
version = "0.1.0"
edition = "2021"
publish = false

[dependencies]
crossbeam-channel = "=0.5.17"
crossbeam-queue = "=0.3.14"
tracing-chrometrace = "=0.1.20"

[dev-dependencies]
serde_json = "*"
