[package]
name = "moq_sub"
version = "0.1.0"
edition = "2021"
publish = false

[dependencies]
serde_json = "1"
rand = "0.8"
chrono = { version = "0.4", default-features = false, features = ["clock"] }
tokio = { version = "1", features = ["full"] }
anyhow = "1"
inotify = "0.10"
log = "0.4"
reqwest = { version = "0.11", default-features = false, features = ["json"] }
url = "2"
serde = { version = "1", features = ["derive"] }
