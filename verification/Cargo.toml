[package]
name = "alfred_updater"
version = "0.1.0"
edition = "2021"
publish = false

[dependencies]
chrono = { version = "0.4", features = ["serde"] }
failure = "0.1"
reqwest = "=0.9.18"
semver = { version = "=0.9.0", features = ["serde"] }
serde = { version = "1", features = ["derive"] }
serde_json = "1"
url = "1"
url_serde = "0.2"
