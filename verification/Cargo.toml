[package]
name = "algorithmia"
version = "0.1.0"
edition = "2021"
publish = false

[dependencies]
serde_json = "1"
serde = { version = "1", features = ["derive"] }
base64 = "0.13"
url = "2"
http = "1"
httpdate = "1"
chrono = { version = "0.4", default-features = false, features = ["std"] }
backtrace = "0.3"
mime = "0.3"
reqwest = { version = "0.12", default-features = false, features = ["blocking"] }
