[package]
name = "drogue_cloud_core"
version = "0.1.0"
edition = "2021"
publish = false

[dependencies]
base64 = "=0.13.1"
percent-encoding = "=2.3.2"
mqtt-protocol = "=0.11.2"
serde_urlencoded = "=0.7.1"
url = "=2.5.8"
rand = "=0.8.8"
http = "=0.2.12"
serde = { version = "=1.0.229", features = ["derive"] }
serde_json = "=1.0.154"
indexmap = { version = "=1.9.3", features = ["serde"] }
x509-parser = "0.14"
uuid = { version = "1", features = ["v4"] }
chrono = { version = "0.4", default-features = false, features = ["clock", "std"] }
