[package]
name = "rhyme_core"
version = "0.1.0"
edition = "2021"

[dependencies]
clru = "*"
serde = { version = "*", features = ["derive"] }
serde_json = "*"
