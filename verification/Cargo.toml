[package]
name = "peek"
version = "0.1.0"
edition = "2021"
publish = false

[dependencies]
anyhow = "1"
clap = { version = "4", features = ["derive"] }
open = "5"
thiserror = "1"
walkdir = "2"
