[package]
name = "fattura_analyzer"
version = "2.0.0"
edition = "2021"
publish = false

[dependencies]
env_logger = { version = "0.10", default-features = false }
reqwest = { version = "0.11", default-features = false }
serde_json = "1"
