[package]
name = "notion_tools"
version = "0.1.0"
edition = "2021"
publish = false

[dependencies]
anyhow = "*"
dotenvy = "*"
fxhash = "*"
reqwest = { version = "*", default-features = false }
serde = { version = "*", features = ["derive"] }
serde_json = "*"
