[package]
name = "rust_ssr_example_backend"
version = "0.1.0"
edition = "2021"
publish = false

[dependencies]
axum = "=0.8.9"
bigdecimal = { version = "=0.4.11", features = ["serde"] }
chrono = { version = "=0.4.45", features = ["serde"] }
dotenvy = "=0.15.7"
oracle = { version = "=0.6.3", features = ["chrono"] }
serde = { version = "=1.0.229", features = ["derive"] }
tokio = { version = "=1.54.1", features = ["full"] }
tower-http = { version = "=0.6.11", features = ["cors"] }
utoipa = { version = "=5.5.0", features = ["yaml", "chrono"] }
utoipa-swagger-ui = { version = "=9.0.2", features = ["axum", "vendored"] }
