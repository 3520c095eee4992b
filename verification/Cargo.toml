[package]
name = "app-api"
version = "0.1.0"
edition = "2021"
publish = false

[dependencies]
chrono = { version = "=0.4.45", default-features = false, features = ["clock", "std"] }
reqwest = { version = "=0.13.5", features = ["json"] }
serde = { version = "=1.0.229", features = ["derive"] }
serde_json = "=1.0.154"
sqlx = { version = "=0.9.0", default-features = false, features = ["postgres", "runtime-tokio", "json"] }
tokio = { version = "=1.54.1", features = ["rt"] }
serenity = { version = "=0.12.5", default-features = false, features = ["model", "rustls_backend"] }
octocrab = "=0.41.2"
