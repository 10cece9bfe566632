[package]
name = "moviesdb"
version = "0.1.0"
edition = "2021"
publish = false

[dependencies]
axum = "*"
bb8 = "*"
diesel = { version = "*", default-features = false, features = ["postgres_backend", "32-column-tables"] }
diesel-async = { version = "*", features = ["bb8", "postgres"] }
serde = { version = "*", features = ["derive"] }
tokio = { version = "*", features = ["macros", "net", "rt-multi-thread", "sync"] }
tower-http = { version = "*", features = ["trace"] }
tracing = "*"
tracing-subscriber = "*"
