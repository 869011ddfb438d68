[package]
name = "binjuice"
version = "0.1.0"
edition = "2021"
publish = false

[dependencies]
rodio = { version = "=0.22.2", default-features = false, features = ["wav"] }
serde = { version = "=1.0.229", features = ["derive"] }
serde_yaml = "=0.9.34"
