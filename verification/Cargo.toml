[package]
name = "bluestation"
version = "0.1.0"
edition = "2021"
publish = false

[dependencies]
chrono = "0.4"
chrono-tz = "*"
clap = { version = "4", features = ["derive"] }
ctrlc = "3"
