[package]
name = "sharing_hub"
version = "0.1.0"
edition = "2021"
publish = false

[dependencies]
serde = { version = "*", features = ["derive"] }
serde_json = "*"
chrono = "*"
sysinfo = "*"
uuid = { version = "*", features = ["v7"] }
tokio = { version = "*", features = ["full"] }
sqlx = { version = "*", default-features = false, features = ["runtime-tokio", "sqlite", "macros"] }
axum = "*"
futures = "*"
ctrlc = "*"
