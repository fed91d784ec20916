[package]
name = "hbone"
version = "0.1.0"
edition = "2021"
publish = false

[dependencies]
h2 = "*"
tokio = { version = "*", features = ["time", "sync", "io-util"] }
bytes = "*"
serde = { version = "*", features = ["derive"] }
