[package]
name = "slack_morphism"
version = "0.1.0"
edition = "2021"
publish = false

[dependencies]
jiff = "0.2"
url = "2"
base64 = "0.22"
bytes = "1"
chrono = "0.4"
serde = { version = "1", features = ["derive"] }
serde_json = "1"
serde_with = "3"
mime = "0.3"
