[package]
name = "tedge_tb"
version = "0.1.0"
edition = "2021"
publish = false

[dependencies]
anyhow = "1"
camino = "1"
rumqttc = { version = "0.24", features = ["proxy"] }
serde_json = "1"
