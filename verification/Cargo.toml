[package]
name = "card_game"
version = "0.1.0"
edition = "2021"
publish = false

[dependencies]
serde = { version = "1", features = ["derive"] }
serde_json = "1"
anyhow = "1"
png = "0.17"
pyo3 = "0.20"
extstd = "*"
extrust = "*"
