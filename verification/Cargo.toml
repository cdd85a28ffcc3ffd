[package]
name = "aws_iot_core"
version = "0.1.0"
edition = "2021"
publish = false

[dependencies]
serde_json = "=1.0.151"
rumqttc = "=0.25.1"
tokio = { version = "=1.53.2", features = ["fs", "sync", "rt-multi-thread", "macros", "time"] }
