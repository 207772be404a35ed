[package]
name = "find_rs"
version = "0.1.0"
edition = "2021"
publish = false

[dependencies]
regex = "1"
walkdir = "2"
clap = { version = "4", features = ["derive"] }
chrono = "0.4"
thiserror = "1"
