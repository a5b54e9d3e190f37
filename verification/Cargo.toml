[package]
name = "octokit"
version = "0.1.0"
edition = "2021"
publish = false

[dependencies]
hex = "0.4"
jsonwebtoken = "9"
openssl = "0.10"
reqwest = { version = "0.12", features = ["blocking", "json"] }
serde = { version = "1", features = ["derive"] }
serde_json = "1"
