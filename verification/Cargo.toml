[package]
name = "wotw_seedgen"
version = "0.1.0"
edition = "2021"
publish = false

[dependencies]
serde = { version = "1", features = ["derive"] }
decorum = "0.3"
