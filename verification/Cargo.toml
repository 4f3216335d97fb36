[package]
name = "ph"
version = "0.1.0"
edition = "2021"
publish = false

[dependencies]
lru = "*"
reqwest = { version = "*", default-features = false }
chrono = { version = "*", default-features = false, features = ["clock", "std", "serde"] }
toml = "*"
serde = { version = "*", features = ["derive"] }
tokio = { version = "*", features = ["full"] }
