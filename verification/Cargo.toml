[package]
name = "ib_adapter"
version = "0.1.0"
edition = "2021"
publish = false

[dependencies]
ahash = "0.8"
anyhow = "1"
jiff = { version = "0.2", features = ["tzdb-bundle-always"] }
log = "0.4"
pyo3 = { version = "*", features = ["abi3-py310"] }
rust_decimal = "1"
serde = { version = "1", features = ["derive"] }
serde_json = "1"
time = "0.3"
tracing = "0.1"
ustr = "1"
