[package]
name = "zephyr"
version = "0.1.0"
edition = "2021"
publish = false

[dependencies]
anyhow = "1"
futures-util = "0.3"
nvml-wrapper = "0.11"
serde = { version = "1", features = ["derive"] }
serde_json = "1"
sysinfo = "0.35"
tokio = { version = "1", features = ["rt-multi-thread", "time", "sync", "macros"] }
tracing = "0.1"
zbus = "5"
