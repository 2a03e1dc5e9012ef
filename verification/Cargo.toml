[package]
name = "zookeeper_operator"
version = "0.1.0"
edition = "2021"
publish = false

[dependencies]
futures = "=0.3.34"
k8s-openapi = { version = "=0.18.0", features = ["v1_26", "schemars"] }
kube = { version = "=0.82.2", features = ["runtime", "derive"] }
schemars = "=0.8.22"
serde = { version = "=1.0.229", features = ["derive"] }
serde_json = "=1.0.154"
thiserror = "=1.0.69"
tokio = { version = "=1.54.1", features = ["macros", "rt-multi-thread", "time"] }
tracing = "=0.1.44"
tracing-subscriber = "=0.3.23"
zookeeper = "=0.8.0"
