[package]
name = "cryptoclient"
version = "0.1.0"
edition = "2021"
publish = false

[dependencies]
futures = "*"
hex = "*"
hmac = "*"
serde = { version = "*", features = ["derive"] }
serde-aux = "*"
serde_json = "*"
sha2 = "*"
tokio = { version = "*", features = ["rt", "macros", "sync", "net", "time"] }
tokio-tungstenite = "*"
