[package]
name = "traq-bot-http"
version = "0.1.0"
edition = "2021"
publish = false

[dependencies]
serde_json = "1"
serde = { version = "1", features = ["derive"] }
time = { version = "0.3", features = ["parsing", "formatting"] }
uuid = "1"
http = "1"
http-body = "1"
http-body-util = "0.1"
bytes = "1"
futures-util = "0.3"
tower-service = "0.3"
