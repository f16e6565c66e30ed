[package]
name = "drashta"
version = "0.1.0"
edition = "2021"
publish = false

[dependencies]
regex = "*"
chrono = "*"
serde = { version = "*", features = ["derive"] }
serde_json = "*"
tokio = { version = "*", features = ["full"] }
axum = "*"
axum-extra = { version = "*", features = ["query"] }
tower-http = { version = "*", features = ["cors", "fs"] }
futures = "*"
tokio-stream = { version = "*", features = ["sync"] }
async-stream = "*"
inotify = "*"
systemd = "*"
rayon = "*"
