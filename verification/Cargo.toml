[package]
name = "alar2"
version = "0.1.0"
edition = "2021"
publish = false

[dependencies]
chrono = "*"
cmd_lib = "*"
