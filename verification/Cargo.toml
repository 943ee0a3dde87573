[package]
name = "scaffold"
version = "0.1.0"
edition = "2021"
publish = false

[dependencies]
chrono = "0.4"
clap = { version = "3.2", features = ["derive"] }
git2 = { version = "*", default-features = false }
uuid = { version = "1", features = ["v4"] }
