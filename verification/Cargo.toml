[package]
name = "application_rdn"
version = "0.1.0"
edition = "2021"
publish = false

[dependencies]
uuid = { version = "*", features = ["serde"] }
url = { version = "*", features = ["serde"] }
serde = { version = "*", features = ["derive"] }
