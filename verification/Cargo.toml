[package]
name = "qute"
version = "0.1.0"
edition = "2021"
publish = false

[dependencies]
bytes = "*"
futures-core = "*"
mqttbytes = "*"
serde = "*"
serde_json = "*"
thiserror = "*"
tokio = { version = "*", features = ["sync", "net", "io-util", "rt-multi-thread", "macros", "time"] }
tokio-util = { version = "*", features = ["rt"] }
tower = { version = "*", features = ["util"] }
tracing = "*"
tracing-subscriber = { version = "*", features = ["env-filter"] }
