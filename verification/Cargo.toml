[package]
name = "change_email"
version = "0.1.0"
edition = "2021"
publish = false

[dependencies]
axum = "=0.8.9"
base64 = "=0.23.1"
chrono = "=0.4.45"
form_urlencoded = "=1.2.2"
lazy_static = "=1.5.1"
rand = "=0.10.3"
rust-embed = { version = "=8.13.0", features = ["interpolate-folder-path"] }
serde = { version = "=1.0.229", features = ["derive"] }
thiserror = "=2.0.21"
trailbase-sqlite = "=0.3.0"
ts-rs = "=12.0.1"
utoipa = "=6.0.0"
uuid = "=1.29.0"
