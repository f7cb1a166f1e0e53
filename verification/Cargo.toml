[package]
name = "svc_telemetry"
version = "0.1.0"
edition = "2021"
publish = false

[dependencies]
axum = "=0.6.20"
axum-extra = { version = "=0.8.0", features = ["cookie"] }
chrono = "=0.4.45"
futures = "0.3"
hyper = { version = "0.14", features = ["full"] }
jsonwebtoken = "=9.3.1"
log = "0.4"
ordered-float = { version = "4", features = ["serde"] }
prost = "0.11"
serde = { version = "1", features = ["derive"] }
serde_json = "=1.0.154"
svc-storage-client-grpc = "=0.2.0"
tokio = { version = "1", features = ["macros", "rt-multi-thread", "signal", "sync", "time", "net"] }
tonic = "0.8"
tonic-health = "0.8"
tower = { version = "0.4", features = ["util"] }
tower-http = { version = "0.4", features = ["cors", "trace"] }
utoipa = { version = "4", features = ["uuid"] }
uuid = { version = "1", features = ["serde"] }
