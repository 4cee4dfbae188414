[package]
name = "insta-cmd"
version = "0.6.0"
edition = "2021"
publish = false

[dependencies]
insta = { version = "1", features = ["json"] }
serde = { version = "1", features = ["derive"] }
serde_json = "1"
