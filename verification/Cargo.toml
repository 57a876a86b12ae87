[package]
name = "ever_send"
version = "0.1.0"
edition = "2021"
publish = false

[dependencies]
anyhow = "1"
base64 = "=0.13.1"
ed25519-dalek = "=1.0.1"
hex = "=0.4.3"
log = "0.4"
nekoton = "0.0.1"
pyo3 = "0.18"
pyo3-log = "0.8"
serde_json = "1"
tokio = { version = "1", features = ["rt-multi-thread", "sync"] }
