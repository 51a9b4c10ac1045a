[package]
name = "bikeshare_server"
version = "0.1.0"
edition = "2021"
publish = false

[dependencies]
chrono = "0.4"
duct = "0.13"
eyre = "0.6"
google-fcm1 = "6"
hyper-rustls = "0.27"
hyper-util = "0.1"
log = "0.4"
reqwest = { version = "0.12", default-features = false, features = ["json", "rustls-tls"] }
rocket = { version = "0.5", features = ["uuid"] }
rustls = { version = "0.23", features = ["ring"] }
serde = { version = "1", features = ["derive"] }
serde_json = "1"
tokio = { version = "1", features = ["full"] }
uuid = { version = "1", features = ["serde"] }
