[package]
name = "sendgrid"
version = "0.1.0"
edition = "2021"
publish = false

[dependencies]
data-encoding = "2"
reqwest = { version = "0.12", default-features = false, features = ["blocking"] }
serde = { version = "1", features = ["derive"] }
serde_json = "1"
thiserror = "1"
url = "2"
