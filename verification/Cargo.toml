[package]
name = "ecu-shenanigans"
version = "6.0.0"
edition = "2021"
publish = false

[dependencies]
chrono = "0.4"
clap = { version = "4", features = ["derive"] }
thiserror = "1"
