[package]
name = "finfo"
version = "0.1.0"
edition = "2021"
publish = false

[dependencies]
anyhow = "1"
dotenv = "0.15"
futures = "0.3"
longport = "3"
reqwest = "0.12"
serde_json = "1"
time = { version = "0.3", features = ["macros"] }
tokio = { version = "1", features = ["full"] }
