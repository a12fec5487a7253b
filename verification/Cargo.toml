[package]
name = "registry_quality"
version = "0.1.0"
edition = "2021"
publish = false

[dependencies]
axum = "*"
chrono = { version = "*", features = ["serde"] }
serde = { version = "*", features = ["derive"] }
serde_json = "*"
sqlx = { version = "*", default-features = false, features = ["runtime-tokio", "postgres", "uuid", "chrono"] }
tokio = { version = "*", features = ["rt-multi-thread", "macros"] }
uuid = { version = "*", features = ["v4", "serde"] }
