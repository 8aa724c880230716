[package]
name = "aleph_core"
version = "0.1.0"
edition = "2021"
publish = false

[dependencies]
parity-scale-codec = "*"
time = { version = "*", features = ["parsing"] }
base64 = "*"
serde = "*"
serde_json = "*"
tokio = { version = "*", features = ["rt", "macros", "sync"] }
futures = "*"
