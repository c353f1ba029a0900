[package]
name = "bbs"
version = "0.1.0"
edition = "2021"
publish = false

[dependencies]
anyhow = "*"
bcrypt = "*"
serde = { version = "*", features = ["derive"] }
serde_json = "*"
tokio = { version = "*", features = ["full"] }
toml = "*"
