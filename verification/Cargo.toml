[package]
name = "mongo_relay"
version = "0.1.0"
edition = "2021"
publish = false

[dependencies]
bson = "2"
mongodb = "2"
serde = { version = "1", features = ["derive"] }
serde_json = "1"
