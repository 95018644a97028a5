[package]
name = "mesh_exporter"
version = "0.1.0"
edition = "2021"
publish = false

[dependencies]
meshtastic = "*"
geohash = "*"
tokio = { version = "*", features = ["rt-multi-thread", "macros", "time", "sync"] }
anyhow = "*"
serde = { version = "*", features = ["derive"] }
serde_yaml = "*"
metrics = "*"
metrics-exporter-prometheus = "*"
metrics-util = "*"
tracing = "*"
tracing-subscriber = { version = "*", features = ["env-filter"] }
