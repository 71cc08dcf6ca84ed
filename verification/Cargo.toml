[package]
name = "kv_store"
version = "0.1.0"
edition = "2021"
publish = false

[dependencies]
lazy_static = "=1.5.1"
pyo3 = { version = "=0.22.6", features = ["extension-module"] }

[dev-dependencies]
crossbeam-utils = "0.8"
