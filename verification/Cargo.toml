[package]
name = "activation"
version = "0.1.0"
edition = "2021"
publish = false

[dependencies]
clap = { version = "4", features = ["derive"] }
color-print = "0.3"
eyre = "0.6"
itertools = "0.14"
