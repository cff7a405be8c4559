[package]
name = "rustup_mirror"
version = "0.1.0"
edition = "2021"
publish = false

[dependencies]
anyhow = "*"
chrono = "*"
clap = { version = "*", features = ["derive"] }
filebuffer = "*"
hex = "*"
indicatif = "*"
reqwest = { version = "*", default-features = false, features = ["blocking"] }
ring = "*"
toml = "*"
url = "*"
