[package]
name = "es_manager"
version = "0.1.0"
edition = "2021"
publish = false

[dependencies]
directories = "*"

[dev-dependencies]
serde_json = "*"
