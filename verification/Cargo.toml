[package]
name = "notex"
version = "0.1.0"
edition = "2021"
publish = false

[dependencies]
notify = { version = "8", default-features = false }
serde = { version = "1", features = ["derive"] }
