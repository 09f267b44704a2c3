[package]
name = "microwave_gui"
version = "0.1.0"
edition = "2021"
publish = false

[dependencies]
iced = { version = "0.10", default-features = false }
pyo3 = { version = "0.20", features = ["extension-module", "abi3-py37"] }
