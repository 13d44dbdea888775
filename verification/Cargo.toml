[package]
name = "sanshu"
version = "0.1.0"
edition = "2021"
publish = false

[dependencies]
uuid = { version = "=1.27.0", features = ["v4"] }
chrono = "=0.4.45"
serde = { version = "=1.0.229", features = ["derive"] }
serde_json = "=1.0.151"
percent-encoding = "=2.3.2"
base64 = "=0.22.1"
dirs = "*"
