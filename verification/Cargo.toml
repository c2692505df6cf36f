[package]
name = "lava_top"
version = "0.1.0"
edition = "2021"
publish = false

[dependencies]
serde = { version = "1", features = ["derive"] }
serde_json = "1"
url = "2"
uuid = "1"
chrono = "0.4"
thiserror = "1"
reqwest = { version = "0.12", default-features = false, features = ["json"] }
