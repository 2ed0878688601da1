[package]
name = "ptmp"
version = "0.1.0"
edition = "2021"
publish = false

[dependencies]
anyhow = "1"
chrono = "0.4"
clap = { version = "4", features = ["derive"] }
inquire = "*"
sanitize-filename = "*"
serde = { version = "1", features = ["derive"] }
tera = "1"
toml = "*"
walkdir = "2"
