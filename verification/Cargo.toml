[package]
name = "todo_service"
version = "0.1.0"
edition = "2021"
publish = false

[dependencies]
anyhow = "1"
axum = "0.5"
hyper = "0.14"
metrics = "0.18"
metrics-exporter-prometheus = "0.9"
serde = { version = "1", features = ["derive"] }
tokio = { version = "1", features = ["macros", "rt-multi-thread"] }
tower = { version = "0.4", features = ["timeout", "util"] }
tower-http = { version = "0.3", features = ["trace"] }
utoipa = "1"
uuid = { version = "1", features = ["v4", "serde"] }
