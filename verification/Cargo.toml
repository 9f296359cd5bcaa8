[package]
name = "swarm_rs"
version = "0.1.0"
edition = "2021"
publish = false

[dependencies]
serde_json = "1"
serde = { version = "1", features = ["derive"] }
async-openai = { version = "0.27", default-features = false }
