[package]
name = "spinachflow"
version = "0.1.0"
edition = "2021"
publish = false

[dependencies]
futures = "0.3"
futures-core = "0.3"
tokio = { version = "1", features = ["sync", "time", "rt", "net", "io-util", "io-std"] }
tokio-util = { version = "0.7", features = ["codec"] }
serde = { version = "1", features = ["derive"] }
serde_json = "1"
ref-cast = "1"
