[package]
name = "novel_search"
version = "0.1.0"
edition = "2021"
publish = false

[dependencies]
serde_json = "1"
rand = "0.8"
clap = { version = "4", features = ["derive"] }
reqwest = { version = "0.12", features = ["json"] }
tokio = { version = "1", features = ["full"] }
