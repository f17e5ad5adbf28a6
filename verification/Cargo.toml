[package]
name = "shared_core"
version = "0.1.0"
edition = "2021"
publish = false

[dependencies]
restate-sdk-shared-core = { version = "=0.3.0", default-features = false }
prost = "=0.13.5"
bytes = "=1.12.1"
tracing = "=0.1.44"
tracing-subscriber = "=0.3.23"
