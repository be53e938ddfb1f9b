[package]
name = "ps_workers"
version = "0.1.0"
edition = "2021"
publish = false

[dependencies]
restate-sdk = "*"
serde = { version = "*", features = ["derive"] }
serde_json = "*"
time = { version = "*", features = ["parsing", "formatting"] }
uuid = { version = "*", features = ["v7"] }
thiserror = "*"
