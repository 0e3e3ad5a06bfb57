[package]
name = "pydantic_core"
version = "0.1.0"
edition = "2021"
publish = false

[dependencies]
url = "2"
ahash = "0.8"
pyo3 = "0.23"
