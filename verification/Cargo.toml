[package]
name = "apca"
version = "0.29.0"
edition = "2021"
publish = false

[dependencies]
chrono = { version = "=0.4.45", features = ["serde"] }
futures = "=0.3.34"
http = "=1.5.0"
http-body-util = "=0.1.5"
hyper = { version = "=1.12.0", features = ["client", "http1"] }
hyper-tls = "=0.6.0"
hyper-util = { version = "=0.1.21", features = ["client", "client-legacy", "http1", "tokio"] }
num-decimal = { version = "=0.2.5", features = ["serde"] }
serde = { version = "=1.0.229", features = ["derive"] }
serde_json = "=1.0.154"
serde_urlencoded = "=0.7.1"
serde_variant = "=0.1.3"
tokio = { version = "=1.54.1", features = ["net", "rt", "macros", "time"] }
tokio-tungstenite = { version = "=0.26.2", features = ["connect", "native-tls"] }
tracing = "=0.1.44"
url = "=2.5.8"
uuid = "=1.29.0"
websocket-util = "=0.14.0"
