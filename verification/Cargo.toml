[package]
name = "ceres_core"
version = "0.1.0"
edition = "2021"
publish = false

[dependencies]
anyhow = "=1.0.104"
clap = "=4.6.7"
image = { version = "=0.24.9", default-features = false, features = ["png"] }
chrono = { version = "=0.4.45", default-features = false, features = ["clock"] }
