[package]
name = "puck"
version = "0.1.0"
edition = "2021"
publish = false

[dependencies]
anyhow = "1"
axum = { version = "0.6", features = ["ws"] }
bounded-vec-deque = "0.1"
chrono = { version = "0.4", features = ["serde"] }
futures = "0.3"
jsonwebtoken = "8"
lazy_static = "1"
reqwest = { version = "0.11", features = ["json"] }
reqwest-eventsource = "0.4"
serde = { version = "1", features = ["derive"] }
serde_json = "1"
tokio = { version = "1", features = ["full"] }
tower = "0.4"
tower-http = { version = "0.4", features = ["compression-gzip", "trace"] }
tracing = { version = "0.1", features = ["log"] }
tracing-subscriber = "0.3"
walkdir = "2"
