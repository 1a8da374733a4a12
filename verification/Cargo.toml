[package]
name = "todo_service"
version = "0.1.0"
edition = "2021"
publish = false

[dependencies]
anyhow = "1"
axum = "=0.8.9"
http = "=1.5.0"
serde = { version = "1", features = ["derive"] }
shuttle-axum = "*"
shuttle-runtime = "*"
shuttle-shared-db = { version = "*", features = ["postgres", "sqlx"] }
sqlx = { version = "0.8", features = ["postgres", "runtime-tokio", "migrate"] }
tokio = { version = "1", features = ["macros", "rt-multi-thread"] }
tower = { version = "=0.5.3", features = ["timeout", "util"] }
tower-http = { version = "=0.6.11", features = ["auth", "cors", "trace", "request-id", "normalize-path", "timeout", "validate-request"] }
tracing-subscriber = { version = "0.3", features = ["env-filter"] }
uuid = { version = "=1.29.0", features = ["v4"] }

[dev-dependencies]
serde_json = "1"
