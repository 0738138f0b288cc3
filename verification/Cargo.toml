[package]
name = "imgflip"
version = "0.1.0"
edition = "2021"
publish = false

[dependencies]
reqwest = { version = "*", default-features = false }
serde_json = "*"
serde_qs = "*"
tokio = { version = "*", features = ["rt", "macros"], default-features = false }
url = "*"
