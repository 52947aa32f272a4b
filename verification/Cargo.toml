[package]
name = "firewall"
version = "0.1.0"
edition = "2021"
publish = false

[dependencies]
anyhow = "1"
clap = { version = "3.2", features = ["derive"] }
ipnet = "2"
nispor = "1.2"
