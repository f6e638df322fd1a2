[package]
name = "tiwi"
version = "0.1.0"
edition = "2021"
publish = false

[dependencies]
chrono = "0.4"
anyhow = "1"
clap = "2"
crossterm = "*"
