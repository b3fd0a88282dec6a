[package]
name = "aur_helper"
version = "0.1.0"
edition = "2021"
publish = false

[dependencies]
clap = "*"
flate2 = "*"
reqwest = { version = "*", default-features = false, features = ["json"] }
serde = { version = "*", features = ["derive"] }
serde_json = "*"
tar = "*"
tokio = { version = "*", features = ["rt-multi-thread"] }
