[package]
name = "scaffold"
version = "0.1.0"
edition = "2021"
publish = false

[dependencies]
anyhow = "*"
clap = "*"
console = "*"
dialoguer = "*"
globset = "*"
handlebars = "*"
heck = "*"
indicatif = "*"
md5 = "*"
serde = { version = "*", features = ["derive"] }
toml = "*"
walkdir = "*"
