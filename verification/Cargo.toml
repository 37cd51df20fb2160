[package]
name = "coil_core"
version = "0.1.0"
edition = "2021"
publish = false

[dependencies]
tokio = { version = "*", features = ["rt-multi-thread", "time", "sync", "net"] }
once_cell = "*"
pyo3 = "*"
