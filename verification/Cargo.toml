[package]
name = "explain"
version = "0.1.0"
edition = "2021"
publish = false

[dependencies]
reqwest = { version = "0.11", features = ["blocking"] }
serde_json = "1"
structopt = "0.3"
