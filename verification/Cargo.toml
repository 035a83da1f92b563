[package]
name = "slp_stats"
version = "0.1.0"
edition = "2021"
publish = false

[dependencies]
chrono = "0.4"
indicatif = "*"
peppi = "*"
serde = { version = "1", features = ["derive"] }
serde_json = "1"
