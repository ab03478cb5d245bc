[package]
name = "termusic_types"
version = "0.1.0"
edition = "2021"
publish = false

[dependencies]
anyhow = "=1.0.104"
clap = { version = "=4.6.7", features = ["derive"] }
image = { version = "0.24", default-features = false }
sysinfo = "=0.29.11"
