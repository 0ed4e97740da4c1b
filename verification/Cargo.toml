[package]
name = "keyring"
version = "0.1.0"
edition = "2021"
publish = false

[dependencies]
pyo3 = { version = "0.20", features = ["extension-module"] }
secret-service = { version = "3", features = ["rt-async-io-crypto-rust"] }
security-framework = "*"
core-foundation = "*"
windows-sys = { version = "0.52", features = ["Win32_Foundation", "Win32_Security_Credentials"] }
