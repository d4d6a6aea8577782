[package]
name = "rflink_gateway"
version = "0.1.0"
edition = "2021"
publish = false

[dependencies]
bytes = "0.5"
chrono = { version = "0.4", features = ["serde"] }
dotenv = "0.15"
futures = "0.3"
futures-executor = "0.3"
hyper = "0.13"
lapin = { version = "1", default-features = false }
rusqlite = "0.24"
serde = { version = "1", features = ["derive"] }
serde_json = "1"
snafu = "0.6"
tokio = { version = "0.2", features = ["full"] }
tokio-serial = { version = "4.3", default-features = false }
tokio-util = { version = "0.3", features = ["codec"] }
