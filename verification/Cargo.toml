[package]
name = "ws_probe"
version = "0.1.0"
edition = "2021"
publish = false

[dependencies]
url = "*"
serde = { version = "*", features = ["derive"] }
native-tls = "*"
tokio-tungstenite = { version = "*", features = ["native-tls"] }
actix-web = "*"
