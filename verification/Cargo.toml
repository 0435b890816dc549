[package]
name = "user_events"
version = "0.1.0"
edition = "2021"
publish = false

[dependencies]
askama = "0.12"
cast = "0.3"
chrono = { version = "0.4", features = ["serde"] }
clap = { version = "4", features = ["derive"] }
mime = "0.3"
non-empty-string = { version = "0.2", features = ["serde"] }
parking_lot = "0.12"
serde = { version = "1", features = ["derive"] }
serde_json = "1"
tempfile = "3"
thiserror = "1"
tokio = { version = "1", features = ["full"] }
tokio-util = "0.7"
uuid = { version = "1", features = ["v7", "serde"] }
warp = "0.3"
