[package]
name = "blog"
version = "0.1.0"
edition = "2021"
publish = false

[dependencies]
chrono = { version = "0.4", features = ["serde"] }
clap = { version = "4", features = ["derive"] }
colog = "1"
dotenv = "0.15"
log = "0.4"
markdown = "*"
reqwest = { version = "0.12", features = ["json"] }
serde = { version = "1", features = ["derive"] }
slugify = "0.1"
tokio = { version = "1", features = ["rt"] }
toml = "0.8"
