[package]
name = "vdb_csv_export"
version = "0.1.0"
edition = "2021"
publish = false

[dependencies]
vdb-rs = "*"
half = "*"
glam = "*"
csv = "*"
walkdir = "*"
rayon = "*"
log = "*"
env_logger = "*"
clap = { version = "*", features = ["derive"] }
