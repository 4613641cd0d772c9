[package]
name = "beatsaver_rs"
version = "0.1.0"
edition = "2021"
publish = false

[dependencies]
serde = { version = "*", features = ["derive"] }
serde_json = "*"
urlencoding = "*"
ureq = { version = "*", default-features = false }
chrono = { version = "*", features = ["serde"] }
