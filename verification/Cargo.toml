[package]
name = "secure_openaiapi"
version = "0.1.0"
edition = "2021"
publish = false

[dependencies]
libsodium-sys = "=0.2.7"
pyo3 = "=0.25.1"
reqwest = { version = "=0.13.5", features = ["blocking", "json"] }
serde = { version = "=1.0.229", features = ["derive"] }
zeroize = "=1.9.1"
