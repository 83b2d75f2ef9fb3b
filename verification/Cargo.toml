[package]
name = "rvu"
version = "0.1.0"
edition = "2021"
publish = false

[dependencies]
image = "0.24"
clap = { version = "4", features = ["derive"] }
thiserror = "1"
winit = "0.28"
pixels = "0.13"
