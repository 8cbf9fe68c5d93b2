[package]
name = "nifi_rust"
version = "0.1.0"
edition = "2021"
publish = false

[dependencies]
bytes = "1"
uuid = { version = "1", features = ["v4"] }
chrono = "0.4"
serde = { version = "1", features = ["derive"] }
serde_json = "1"
async-trait = "*"
inventory = "*"
tokio = { version = "1", features = ["full"] }
tracing = "*"
redis = { version = "*", features = ["tokio-comp", "connection-manager"] }
kube = { version = "*", default-features = false, features = ["client", "rustls-tls"] }
k8s-openapi = { version = "*", features = ["latest"] }
sqlx = { version = "*", default-features = false, features = ["postgres", "runtime-tokio", "uuid", "json"] }
