[package]
name = "zerp"
version = "0.1.0"
edition = "2021"
publish = false

[dependencies]
anyhow = "1"
clap = { version = "4", features = ["derive"] }
clap_complete = "4"
colored = "*"
config = { version = "*", default-features = false, features = ["toml"] }
dialoguer = "*"
dirs = "*"
serde = { version = "1", features = ["derive"] }
shellexpand = "3"
tempfile = "3"
toml = "*"
