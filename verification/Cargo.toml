[package]
name = "icy_dwarf"
version = "0.1.0"
edition = "2021"
publish = false

[dependencies]
itertools = "*"
num = "*"
faer = "*"
serde = { version = "*", features = ["derive"] }
serde_repr = "*"
toml = "*"
clap = { version = "*", features = ["derive"] }
extendr-api = "*"
extendr-engine = "*"
