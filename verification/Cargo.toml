[package]
name = "ccs"
version = "0.1.0"
edition = "2021"
publish = false

[dependencies]
anyhow = "1"
git2 = { version = "*", default-features = false }
owo-colors = "4"
serde = { version = "1", features = ["derive"] }
serde_json = "1"
