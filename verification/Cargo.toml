[package]
name = "nbsp"
version = "0.1.0"
edition = "2021"
publish = false

[dependencies]
ammonia = "*"
anyhow = "*"
argon2 = { version = "*", features = ["std"] }
askama = "*"
axum = "*"
axum-extra = { version = "*", features = ["cookie-private"] }
base64ct = { version = "*", features = ["alloc"] }
chrono = "*"
cookie = "*"
jsonwebtoken = { version = "10", default-features = false, features = ["rust_crypto"] }
metrics = "*"
metrics-exporter-prometheus = { version = "*", default-features = false }
percent-encoding = "*"
pulldown-cmark = { version = "*", default-features = false, features = ["html"] }
regex = "*"
serde = { version = "*", features = ["derive"] }
sqlx = { version = "*", default-features = false, features = ["runtime-tokio", "postgres", "uuid", "chrono", "macros", "migrate"] }
thiserror = "*"
tokio = { version = "*", features = ["full"] }
tower = "*"
tower-http = { version = "*", features = ["trace", "request-id", "sensitive-headers", "set-header", "util"] }
tracing = "*"
tracing-subscriber = { version = "*", features = ["json", "env-filter"] }
uuid = "*"
