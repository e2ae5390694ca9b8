[package]
name = "aeron-glide"
version = "0.1.3"
edition = "2021"
publish = false

[dependencies]
cxx = "1"
serde = { version = "1", features = ["derive"] }
serde_yaml = "0.9"
clap = { version = "4", features = ["derive"] }
ctrlc = "3"
