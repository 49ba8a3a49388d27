[package]
name = "mlkit"
version = "0.1.0"
edition = "2021"
publish = false

[dependencies]
ndarray = "*"
ndarray-linalg = { version = "*", default-features = false }
thiserror = "*"
