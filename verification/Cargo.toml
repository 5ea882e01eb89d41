[package]
name = "caldav_backend"
version = "0.1.0"
edition = "2021"
publish = false

[dependencies]
axum = "0.7"
dotenv = "0.15"
minicaldav = "*"
serde = { version = "1", features = ["derive"] }
tokio = { version = "1", features = ["full"] }
ureq = "2"
url = "2"
