[package]
name = "service_scaler"
version = "0.1.0"
edition = "2021"
publish = false

[dependencies]
chrono = "0.4"
env_logger = "0.10"
futures = "0.3"
k8s-openapi = { version = "0.20", features = ["v1_25"] }
kube = { version = "0.87", features = ["runtime", "derive"] }
lazy_static = "1"
log = "0.4"
schemars = "0.8"
serde = { version = "1", features = ["derive"] }
serde_json = "1"
thiserror = "1"
tokio = { version = "1", features = ["macros", "rt-multi-thread"] }
