[package]
name = "hearthlink_supervisor"
version = "0.1.0"
edition = "2021"
publish = false

[dependencies]
reqwest = { version = "0.12", default-features = false }
tokio = { version = "1", features = ["macros", "rt-multi-thread", "time"] }
serde = { version = "1", features = ["derive"] }
serde_json = "1"
chrono = { version = "0.4", features = ["serde"] }
rusqlite = { version = "*", features = ["bundled"] }
prometheus = "*"
rand = "0.8"
aes-gcm = "0.10"
base64 = "0.22"
lazy_static = "1"
