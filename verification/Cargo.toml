[package]
name = "ras_service"
version = "0.1.0"
edition = "2021"
publish = false

[dependencies]
base64 = "0.13"
httparse = "1"
openssl = "0.10"
reqwest = { version = "0.11", default-features = false }
serde = { version = "1", features = ["derive"] }
serde_json = "1"
tokio = { version = "1", features = ["rt", "rt-multi-thread", "net", "io-util", "time"] }
urldecode = "*"
