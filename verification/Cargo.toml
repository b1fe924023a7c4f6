[package]
name = "server_roulette"
version = "0.1.0"
edition = "2021"
publish = false

[dependencies]
rand = "0.8"
reqwest = { version = "0.12", default-features = false, features = ["blocking"] }
rodio = { version = "0.19", default-features = false }
serde = { version = "1", features = ["derive"] }
serde_json = "1"
