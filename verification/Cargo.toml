[package]
name = "swarm_discovery"
version = "0.1.0"
edition = "2021"
publish = false

[dependencies]
tokio = { version = "1", features = ["net", "rt", "time"] }
hickory-proto = "*"
socket2 = { version = "0.5", features = ["all"] }
acto = { version = "*", features = ["tokio"] }
thiserror = "1"
tracing = "0.1"
