[package]
name = "gua_auth"
version = "0.1.0"
edition = "2021"
publish = false

[dependencies]
url = "2"
ulid = { version = "1", features = ["serde"] }
serde = { version = "1", features = ["derive"] }
thiserror = "2"
schemars = "0.8"
serde_with = "3"
chrono = { version = "0.4", features = ["serde"] }
