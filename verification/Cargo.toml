[package]
name = "sensor"
version = "0.1.0"
edition = "2021"
publish = false

[dependencies]
anyhow = "=1.0.104"
axum = "=0.6.20"
chrono = "=0.4.45"
clap = { version = "=4.6.7", features = ["derive"] }
dotenv = "=0.15.0"
mime_guess = "=2.0.5"
postgrest = "=1.6.0"
reqwest = { version = "=0.11.27", features = ["json"] }
rust-embed = { version = "=8.13.0", features = ["interpolate-folder-path"] }
serde = { version = "=1.0.229", features = ["derive"] }
serde_json = "=1.0.154"
tokio = { version = "=1.54.1", features = ["full"] }
tower = "=0.4.13"
tower-http = { version = "=0.4.4", features = ["normalize-path"] }
