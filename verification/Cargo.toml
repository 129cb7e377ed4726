[package]
name = "grandma2"
version = "0.1.0"
edition = "2021"
publish = false

[dependencies]
serde_json = "1"
md5 = "0.7"
serde = { version = "1", features = ["derive"] }
tokio = { version = "1", features = ["macros", "rt-multi-thread", "net", "sync", "time"] }
tokio-tungstenite = "0.20"
tungstenite = "0.20"
futures-util = "0.3"
midir = "0.9"
