[package]
name = "irgsh_cli"
version = "0.1.0"
edition = "2021"
publish = false

[dependencies]
dirs = "*"
clap = "*"
question = "*"
reqwest = { version = "*", features = ["blocking", "json"] }
serde = { version = "*", features = ["derive"] }
serde_json = "*"
serde_yaml = "*"
