[package]
name = "certificate_helper"
version = "0.1.0"
edition = "2021"
publish = false

[dependencies]
rcgen = "0.11"
serde_json = "1"
k8s-openapi = { version = "0.20", features = ["v1_26"] }
chrono = "0.4"
kube = { version = "0.87", features = ["runtime", "derive", "admission"] }
serde = { version = "1", features = ["derive"] }
tokio = { version = "1", features = ["macros", "rt-multi-thread"] }
warp = { version = "0.3", features = ["tls"] }
futures = "0.3"
http = "0.2"
clap = { version = "4", features = ["derive"] }
schemars = "0.8"
