[package]
name = "setup"
version = "0.1.0"
edition = "2021"
publish = false

[dependencies]
serde = { version = "1", features = ["derive"] }
serde_json = "1"
jsonschema = "0.17"
clap = { version = "4", features = ["derive"] }
ctrlc = "3"
termion = "*"
