[package]
name = "organize-rt"
version = "0.1.0"
edition = "2021"
publish = false

[dependencies]
regex = "1"
serde = { version = "1", features = ["derive"] }
serde_json = "1"
structopt = "0.3"
confy = "0.4"
indicatif = "0.15"
walkdir = "2"
human-panic = "1"
