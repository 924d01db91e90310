[package]
name = "decision_api"
version = "0.1.0"
edition = "2021"
publish = false

[dependencies]
async-graphql = { version = "6", features = ["chrono", "uuid"] }
async-graphql-axum = "6"
axum = "0.6"
bcrypt = "0.15"
chrono = "0.4"
jsonwebtoken = "9"
reqwest = { version = "0.11", default-features = false, features = ["json", "rustls-tls"] }
serde = { version = "1", features = ["derive"] }
serde_json = { version = "1", features = ["preserve_order"] }
sqlx = { version = "0.7", default-features = false, features = ["postgres", "runtime-tokio-rustls", "uuid", "chrono"] }
tokio = { version = "1", features = ["full"] }
tower-http = { version = "0.4", features = ["cors"] }
uuid = { version = "1", features = ["v4", "serde"] }
