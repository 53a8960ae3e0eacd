[package]
name = "tonapi"
version = "0.1.0"
edition = "2021"
publish = false

[dependencies]
serde = { version = "1", features = ["derive"] }
serde_json = "1"
tokio = { version = "1", features = ["net", "rt"] }
tokio-tungstenite = "*"
futures-util = "0.3"
url = "2"
tonlib-core = "*"
