[package]
name = "sigbot"
version = "0.1.0"
edition = "2021"
publish = false

[dependencies]
chrono = "0.4"
regex = "1"
uuid = { version = "1", features = ["v4"] }
tokio-cron-scheduler = "*"
tokio = { version = "1", features = ["rt-multi-thread", "macros", "sync", "time"] }
serde = { version = "1", features = ["derive"] }
serde_json = "1"
clap = "4"
thiserror = "*"
rumqttc = "*"
