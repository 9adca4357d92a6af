[package]
name = "chat_engine"
version = "0.1.0"
edition = "2021"
publish = false

[dependencies]
serde_json = "*"
serde = { version = "*", features = ["derive"] }
actix = "*"
actix-web = "*"
actix-web-actors = "*"
actix-files = "*"
uuid = { version = "*", features = ["v4"] }
url = "*"
