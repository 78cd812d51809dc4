[package]
name = "pod_lifecycle"
version = "0.1.0"
edition = "2021"
publish = false

[dependencies]
anyhow = "1"
async-trait = "0.1"
dashmap = "6"
k8s-openapi = { version = "*", features = ["latest"] }
tokio = { version = "1", features = ["rt", "rt-multi-thread", "sync", "time"] }
