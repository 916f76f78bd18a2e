[package]
name = "podman_cri"
version = "0.1.0"
edition = "2021"
publish = false

[dependencies]
uuid = { version = "*", features = ["v4"] }
chrono = "*"
axum = "*"
tokio = { version = "*", features = ["full"] }
hyper = { version = "*", features = ["full"] }
hyper-util = { version = "*", features = ["full"] }
hyperlocal = "*"
http-body-util = "*"
tower = "*"
tonic = "*"
tonic-prost = "*"
prost = "*"
futures = "*"
serde = { version = "*", features = ["derive"] }
serde_json = "*"
