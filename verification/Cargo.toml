[package]
name = "magic_login"
version = "0.1.0"
edition = "2021"
publish = false

[dependencies]
actix-web = "0.7"
approveapi = "*"
base64 = "=0.10.1"
base-62 = "=0.1.1"
env_logger = "0.6"
failure = "0.1"
futures = "0.1"
rand = "=0.6.5"
serde = { version = "1", features = ["derive"] }
