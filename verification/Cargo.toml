[package]
name = "gdsyncer"
version = "0.1.0"
edition = "2021"
publish = false

[dependencies]
jwt-simple = "=0.11.9"
uuid = { version = "=1.27.0", features = ["v4"] }
tokio = { version = "=1.53.2", features = ["rt-multi-thread", "sync", "net", "time", "macros", "io-util"] }
serde = { version = "=1.0.229", features = ["derive"] }
serde_json = "=1.0.151"
