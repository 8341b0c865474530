[package]
name = "talos_pilot"
version = "0.1.0"
edition = "2021"
publish = false

[dependencies]
serde_yaml = "=0.9.34"
fastrand = "=2.5.0"
kube = "=3.1.0"
k8s-openapi = { version = "=0.27.1", features = ["latest"] }
tokio = { version = "=1.54.1", features = ["rt-multi-thread", "macros", "time", "process", "sync"] }
clap = { version = "=4.6.7", features = ["derive"] }
color-eyre = "=0.6.5"
tracing = "=0.1.44"
tracing-subscriber = { version = "=0.3.23", features = ["env-filter"] }
thiserror = "=2.0.21"
ratatui = "=0.30.2"
