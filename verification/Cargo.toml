[package]
name = "hawkeye"
version = "0.1.0"
edition = "2021"
publish = false

[dependencies]
uuid = { version = "=1.27.0", features = ["v4"] }
serde = { version = "*", features = ["derive"] }
serde_json = "*"
kube = "*"
k8s-openapi = { version = "=0.27.1", features = ["latest"] }
warp = { version = "*", features = ["server"] }
tokio = { version = "*", features = ["full"] }
reqwest = { version = "*", default-features = false, features = ["rustls-tls"] }
log = "*"
prometheus = "*"
thiserror = "*"
