[package]
name = "equater_cli"
version = "0.1.0"
edition = "2021"
publish = false

[dependencies]
reqwest = { version = "*", default-features = false, features = ["blocking", "json"] }
dialoguer = "*"
cli-table = "*"
dotenv = "*"
serde = { version = "*", features = ["derive"] }
