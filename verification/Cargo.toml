[package]
name = "showcore"
version = "0.1.0"
edition = "2021"
publish = false

[dependencies]
async-stream = "*"
axum = "*"
axum-extra = { version = "*", features = ["typed-header"] }
deadpool-diesel = { version = "*", features = ["postgres"] }
diesel = { version = "*", features = ["postgres"] }
dotenvy = "*"
futures = "*"
pgvector = { version = "*", features = ["diesel"] }
serde = { version = "*", features = ["derive"] }
tokio = { version = "*", features = ["full"] }
tower-http = { version = "*", features = ["cors"] }
tracing = "*"
tracing-subscriber = "*"
ts-rs = "*"
