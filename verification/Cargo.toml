[package]
name = "ocpp_client"
version = "0.4.0"
edition = "2021"
publish = false

[dependencies]
uuid = { version = "=1.29.0", features = ["v4"] }
serde = { version = "=1.0.229", features = ["derive"] }
serde_json = "=1.0.154"
ocpp-types = { version = "=0.3.0", features = ["serde", "validate"] }
tokio = { version = "=1.54.1", features = ["rt", "rt-multi-thread", "net", "time", "sync", "macros"] }
tokio-tungstenite = { version = "=0.30.0", features = ["rustls-tls-webpki-roots"] }
futures = "=0.3.34"
url = "=2.5.8"
base64 = "=0.22.1"
rustls = { version = "=0.23.46", default-features = false, features = ["ring", "std", "tls12", "logging"] }
tracing = "=0.1.44"
embassy-sync = "=0.8.0"
critical-section = { version = "=1.2.0", features = ["std"] }
embassy-net = { version = "=0.9.1", features = ["tcp", "proto-ipv4", "medium-ethernet"] }
embassy-executor = { version = "=0.9.1", features = ["arch-std", "executor-thread"] }
embassy-time = { version = "=0.5.1", features = ["std"] }
embedded-websocket = { version = "=0.9.5", default-features = false }
rand_core = { version = "=0.6.4", features = ["alloc"] }
