[package]
name = "dash_server"
version = "0.1.0"
edition = "2021"
publish = false

[dependencies]
openssl = "*"
serde = { version = "*", features = ["derive"] }
serde_json = "*"
