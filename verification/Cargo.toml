[package]
name = "nothing_as_a_service"
version = "0.1.0"
edition = "2021"
publish = false

[dependencies]
axum = "=0.8.9"
serde_json = "=1.0.154"
tokio = { version = "=1.54.1", features = ["full"] }

[dev-dependencies]
http-body-util = "=0.1.5"
tower = { version = "=0.5.3", features = ["util"] }
