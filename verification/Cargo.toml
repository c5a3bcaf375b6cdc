[package]
name = "account_linking"
version = "0.1.0"
edition = "2021"
publish = false

[dependencies]
rand = "0.8"
sha2 = "0.10"
hex = "0.4"
uuid = { version = "1", features = ["v4"] }
serde_json = "1"
serde = { version = "1", features = ["derive"] }
redis = "0.25"
reqwest = { version = "0.12", default-features = false, features = ["blocking"] }
dotenv = "0.15"
