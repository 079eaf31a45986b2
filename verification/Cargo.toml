[package]
name = "serverless"
version = "0.1.0"
edition = "2021"
publish = false

[dependencies]
serde = { version = "*", features = ["derive"] }
serde_json = "*"
url = "*"
reqwest = { version = "*", default-features = false, features = ["blocking"] }
actix-web = { version = "*", default-features = false }
env_logger = "*"
