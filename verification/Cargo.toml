[package]
name = "sea_schema"
version = "0.1.0"
edition = "2021"
publish = false

[dependencies]
sea-query = "*"
serde = { version = "*", features = ["derive"] }
