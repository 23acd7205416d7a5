[package]
name = "wwdc2md"
version = "0.1.0"
edition = "2021"
publish = false

[dependencies]
scraper = "*"
reqwest = { version = "*", default-features = false, features = ["blocking"] }
headless_chrome = "*"
clap = { version = "*", features = ["derive"] }
anyhow = "*"
