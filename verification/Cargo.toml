[package]
name = "tanoshi"
version = "0.1.0"
edition = "2021"
publish = false

[dependencies]
serde = { version = "1", features = ["derive"] }
serde_json = "1"
jsonwebtoken = "8"
rust-argon2 = "1"
rand = "0.8"
anyhow = "1"
thiserror = "1"
async-trait = "0.1"
chrono = { version = "0.4", default-features = false, features = ["clock"] }
http = "0.2"
axum = "0.5"
headers = "0.3"
tower-http = { version = "0.3", features = ["cors"] }
tokio = { version = "1", features = ["rt-multi-thread", "macros"] }
reqwest = { version = "0.11", default-features = false, features = ["json"] }
