[package]
name = "diesel_guard"
version = "0.1.0"
edition = "2021"
publish = false

[dependencies]
camino = "=1.2.6"
clap = { version = "=4.6.7", features = ["derive"] }
colored = "=3.1.1"
miette = "=7.6.0"
regex = "=1.13.1"
serde = { version = "=1.0.229", features = ["derive"] }
serde_json = "=1.0.154"
sqlparser = { version = "=0.60.0", default-features = false, features = ["std"] }
thiserror = "=2.0.21"
toml = "=1.1.8"
walkdir = "=2.5.0"
